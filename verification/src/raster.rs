//! Decoded images as plain values, and the calls into the `image` crate
//! that decode, cut and encode them.

use vstd::prelude::*;
use crate::error::BoundsError;
use crate::geometry::Rectangle;

verus! {

/// A decoded image: rows from top to bottom, each pixel four bytes (red,
/// green, blue, alpha).
#[derive(Debug)]
pub struct Raster {
    pub width: u32,
    pub height: u32,
    pub pixels: Vec<u8>,
}

/// The pixels of the `w` by `h` region whose left-top corner is `(x, y)`,
/// taken from an image that is `src_width` pixels wide.
pub open spec fn crop_pixels(src: Seq<u8>, src_width: nat, x: nat, y: nat, w: nat, h: nat) -> Seq<
    u8,
> {
    Seq::new(
        4 * w * h,
        |i: int| src[4 * ((y + (i / 4) / (w as int)) * src_width + x + (i / 4) % (w as int)) + i % 4],
    )
}

/// The byte count of a `width` by `height` image.
pub open spec fn byte_count(width: u32, height: u32) -> nat {
    (4 * width * height) as nat
}

/// The file formats that the library reads and writes.
#[derive(Clone, Copy, Debug, PartialEq, Eq, Structural)]
pub enum Format {
    Png,
    Jpeg,
    Bmp,
}

/// The format that the `image` crate reads off a file name's extension;
/// `None` where there is no extension or it names none of the formats.
pub uninterp spec fn format_of_name(file_name: Seq<char>) -> Option<Format>;

/// What the `image` crate decodes from the bytes of a file in that format:
/// width, height and pixels; `None` where it cannot decode them.
pub uninterp spec fn decoded_rgba(format: Format, bytes: Seq<u8>) -> Option<(u32, u32, Seq<u8>)>;

/// The bytes that the `image` crate writes for an image in that format;
/// `None` where it cannot write it.
pub uninterp spec fn encoded_rgba(format: Format, width: u32, height: u32, pixels: Seq<u8>) -> Option<
    Seq<u8>,
>;

impl Raster {
    /// The image holds as many bytes as its size asks for.
    pub open spec fn wf(&self) -> bool {
        self.pixels@.len() == byte_count(self.width, self.height)
    }

    /// Width, height and pixels as one value.
    pub open spec fn parts(&self) -> (u32, u32, Seq<u8>) {
        (self.width, self.height, self.pixels@)
    }

    /// Whether the image holds as many bytes as its size asks for.
    pub fn is_well_formed(&self) -> (r: bool)
        ensures
            r == self.wf(),
    {
        let w: u128 = self.width as u128;
        let h: u128 = self.height as u128;
        assert(0 <= w * h <= 0xFFFF_FFFF * 0xFFFF_FFFF) by (nonlinear_arith)
            requires
                0 <= w <= 0xFFFF_FFFF,
                0 <= h <= 0xFFFF_FFFF,
        ;
        let area: u128 = w * h;
        let want: u128 = 4u128 * area;
        assert(want == byte_count(self.width, self.height)) by (nonlinear_arith)
            requires
                want == 4 * (self.width as int * self.height as int),
                byte_count(self.width, self.height) == 4 * self.width * self.height,
        ;
        (self.pixels.len() as u128) == want
    }

    /// Cuts the rectangle out of the image. The result has the rectangle's
    /// width and height, and its pixel at `(i, j)` is the image's pixel at
    /// `(left_top.x + i, left_top.y + j)`. A rectangle that does not fit is
    /// refused with the rule it breaks.
    pub fn crop(&self, rect: &Rectangle) -> (r: Result<Raster, BoundsError>)
        requires
            self.wf(),
        ensures
            r is Ok <==> rect.fits(self.width, self.height),
            r matches Ok(out) ==> {
                &&& out.wf()
                &&& out.width == rect.right_bottom.x - rect.left_top.x
                &&& out.height == rect.right_bottom.y - rect.left_top.y
                &&& out.pixels@ == crop_pixels(
                    self.pixels@,
                    self.width as nat,
                    rect.left_top.x as nat,
                    rect.left_top.y as nat,
                    out.width as nat,
                    out.height as nat,
                )
            },
            r matches Err(e) ==> rect.checked(self.width, self.height) == Err::<
                (u32, u32),
                BoundsError,
            >(e),
            rect.left_top_outside(self.width, self.height) ==> r matches Err(
                BoundsError::LeftTopOutOfBounds,
            ),
            !rect.left_top_outside(self.width, self.height) && rect.right_bottom_outside(
                self.width,
                self.height,
            ) ==> r matches Err(BoundsError::RightBottomOutOfBounds),
            !rect.left_top_outside(self.width, self.height) && !rect.right_bottom_outside(
                self.width,
                self.height,
            ) && rect.empty_extent() ==> r matches Err(BoundsError::NonPositiveExtent),
    {
        match rect.check(self.width, self.height) {
            Err(e) => Err(e),
            Ok((w, h)) => {
                let out = cut(self, rect.left_top.x, rect.left_top.y, w, h);
                Ok(out)
            },
        }
    }
}

/// Calls `ImageFormat::from_path` on the file name. Trusted: the outcome
/// depends on the file name alone.
#[verifier::external_body]
pub(crate) fn format_of(file_name: &str) -> (r: Option<Format>)
    ensures
        r == format_of_name(file_name@),
{
    match image::ImageFormat::from_path(file_name) {
        Ok(image::ImageFormat::Png) => Some(Format::Png),
        Ok(image::ImageFormat::Jpeg) => Some(Format::Jpeg),
        Ok(image::ImageFormat::Bmp) => Some(Format::Bmp),
        _ => None,
    }
}

/// Calls `image::load_from_memory_with_format` on the bytes, and turns what
/// was decoded into four bytes per pixel with `DynamicImage::into_rgba8`.
/// Trusted: the outcome depends on the format and the bytes alone. Nothing
/// is claimed of the size of what comes back.
#[verifier::external_body]
pub(crate) fn decode_rgba(format: Format, bytes: &Vec<u8>) -> (r: Option<Raster>)
    ensures
        r matches Some(img) ==> decoded_rgba(format, bytes@) == Some(img.parts()),
        r is None ==> decoded_rgba(format, bytes@) is None,
{
    let outside = match format {
        Format::Png => image::ImageFormat::Png,
        Format::Jpeg => image::ImageFormat::Jpeg,
        Format::Bmp => image::ImageFormat::Bmp,
    };
    let img = image::load_from_memory_with_format(bytes, outside).ok()?.into_rgba8();
    Some(Raster { width: img.width(), height: img.height(), pixels: img.into_raw() })
}

/// Calls `ImageBuffer::from_raw` on the pixels, then `GenericImageView::view`
/// and `SubImage::to_image` on the image.
/// Trusted: the result is `w` by `h`, and each of its pixels is the pixel
/// of the image that lies `x` columns and `y` rows further on.
#[verifier::external_body]
pub(crate) fn cut(img: &Raster, x: u32, y: u32, w: u32, h: u32) -> (out: Raster)
    requires
        img.wf(),
        x + w <= img.width,
        y + h <= img.height,
    ensures
        out.width == w,
        out.height == h,
        out.wf(),
        out.pixels@ == crop_pixels(img.pixels@, img.width as nat, x as nat, y as nat, w as nat, h as nat),
{
    let whole = image::RgbaImage::from_raw(img.width, img.height, img.pixels.clone()).unwrap();
    let part = image::GenericImageView::view(&whole, x, y, w, h).to_image();
    Raster { width: part.width(), height: part.height(), pixels: part.into_raw() }
}

/// Calls `image::write_buffer_with_format` on the pixels, writing into
/// memory. Trusted: the outcome depends on the format and the image alone.
#[verifier::external_body]
pub(crate) fn encode_rgba(format: Format, img: &Raster) -> (r: Option<Vec<u8>>)
    requires
        img.wf(),
    ensures
        r matches Some(out) ==> encoded_rgba(format, img.width, img.height, img.pixels@) == Some(
            out@,
        ),
        r is None ==> encoded_rgba(format, img.width, img.height, img.pixels@) is None,
{
    let outside = match format {
        Format::Png => image::ImageFormat::Png,
        Format::Jpeg => image::ImageFormat::Jpeg,
        Format::Bmp => image::ImageFormat::Bmp,
    };
    let mut out = std::io::Cursor::new(Vec::new());
    let color = image::ExtendedColorType::Rgba8;
    image::write_buffer_with_format(&mut out, &img.pixels, img.width, img.height, color, outside).ok()?;
    Some(out.into_inner())
}

} // verus!
