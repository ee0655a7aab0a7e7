//! One job's computation: from the bytes of a source file to the bytes of
//! the two files that are written for it.

use vstd::prelude::*;
use crate::error::{BoundsError, CropError};
use crate::geometry::Rectangle;
use crate::naming::{tagged_file_name, tagged_name};
use crate::raster::{
    byte_count, crop_pixels, decode_rgba, decoded_rgba, encode_rgba, encoded_rgba, format_of,
    format_of_name, Format, Raster,
};

verus! {

/// What a job that succeeded hands over for writing.
pub struct CropOutput {
    /// The name of the cropped image, the tag put before the extension.
    pub cropped_name: String,
    /// The encoded cropped image.
    pub cropped_bytes: Vec<u8>,
    /// The name of the archive copy: the source file's own name.
    pub archive_name: String,
    /// The archive copy: the source file's bytes, untouched.
    pub archive_bytes: Vec<u8>,
}

/// A job's output as contracts see it.
pub struct CropOutputView {
    pub cropped_name: Seq<char>,
    pub cropped_bytes: Seq<u8>,
    pub archive_name: Seq<char>,
    pub archive_bytes: Seq<u8>,
}

impl View for CropOutput {
    type V = CropOutputView;

    open spec fn view(&self) -> CropOutputView {
        CropOutputView {
            cropped_name: self.cropped_name@,
            cropped_bytes: self.cropped_bytes@,
            archive_name: self.archive_name@,
            archive_bytes: self.archive_bytes@,
        }
    }
}

/// The cropped image that a decoding outcome leads to: width, height and
/// pixels, or the failure. An image that could not be decoded, or that holds
/// another number of bytes than its size asks for, counts as not decoded.
pub open spec fn cropped(decoded: Option<(u32, u32, Seq<u8>)>, rect: Rectangle) -> Result<
    (u32, u32, Seq<u8>),
    CropError,
> {
    match decoded {
        None => Err(CropError::Decode),
        Some((width, height, pixels)) => if pixels.len() != byte_count(width, height) {
            Err(CropError::Decode)
        } else {
            match rect.checked(width, height) {
                Err(e) => Err(CropError::Bounds(e)),
                Ok((w, h)) => Ok(
                    (
                        w,
                        h,
                        crop_pixels(
                            pixels,
                            width as nat,
                            rect.left_top.x as nat,
                            rect.left_top.y as nat,
                            w as nat,
                            h as nat,
                        ),
                    ),
                ),
            }
        },
    }
}

/// What a job hands over, given the outcome of encoding its cropped image.
pub open spec fn packed(
    file_name: Seq<char>,
    tag: Seq<char>,
    bytes: Seq<u8>,
    encoded: Option<Seq<u8>>,
) -> Result<CropOutputView, CropError> {
    match encoded {
        None => Err(CropError::Write),
        Some(out) => Ok(
            CropOutputView {
                cropped_name: tagged_name(file_name, tag),
                cropped_bytes: out,
                archive_name: file_name,
                archive_bytes: bytes,
            },
        ),
    }
}

/// The outcome of a job whose source, of the given format, decoded to
/// `decoded`. The cropped image is written in the source's format.
pub open spec fn outcome_after_decoding(
    file_name: Seq<char>,
    bytes: Seq<u8>,
    rect: Rectangle,
    tag: Seq<char>,
    format: Format,
    decoded: Option<(u32, u32, Seq<u8>)>,
) -> Result<CropOutputView, CropError> {
    match cropped(decoded, rect) {
        Err(e) => Err(e),
        Ok((w, h, pixels)) => packed(file_name, tag, bytes, encoded_rgba(format, w, h, pixels)),
    }
}

/// The whole outcome of a job, over what the file name's extension, decoding
/// and encoding give. A file name that tells no format counts as not decoded.
pub open spec fn job_outcome(
    file_name: Seq<char>,
    bytes: Seq<u8>,
    rect: Rectangle,
    tag: Seq<char>,
) -> Result<CropOutputView, CropError> {
    match format_of_name(file_name) {
        None => Err(CropError::Decode),
        Some(format) => outcome_after_decoding(
            file_name,
            bytes,
            rect,
            tag,
            format,
            decoded_rgba(format, bytes),
        ),
    }
}

/// A rectangle that fits the image is cut out, and the cut is as wide and
/// as high as the rectangle: `right_bottom.x - left_top.x` by
/// `right_bottom.y - left_top.y`.
pub proof fn law_crop_has_rectangle_size(width: u32, height: u32, pixels: Seq<u8>, rect: Rectangle)
    requires
        pixels.len() == byte_count(width, height),
        rect.fits(width, height),
    ensures
        cropped(Some((width, height, pixels)), rect) matches Ok(out) && out.0
            == rect.right_bottom.x - rect.left_top.x && out.1 == rect.right_bottom.y
            - rect.left_top.y && out.2.len() == byte_count(out.0, out.1),
{
    let w = (rect.right_bottom.x - rect.left_top.x) as u32;
    let h = (rect.right_bottom.y - rect.left_top.y) as u32;
    assert(4 * (w as nat) * (h as nat) == byte_count(w, h)) by (nonlinear_arith);
}

/// A left-top corner at or beyond the image's width or height fails the job
/// with the left-top kind, and the job hands nothing over for writing.
pub proof fn law_left_top_outside_fails(
    file_name: Seq<char>,
    bytes: Seq<u8>,
    tag: Seq<char>,
    format: Format,
    width: u32,
    height: u32,
    pixels: Seq<u8>,
    rect: Rectangle,
)
    requires
        pixels.len() == byte_count(width, height),
        rect.left_top.x >= width || rect.left_top.y >= height,
    ensures
        outcome_after_decoding(
            file_name,
            bytes,
            rect,
            tag,
            format,
            Some((width, height, pixels)),
        ) == Err::<
            CropOutputView,
            CropError,
        >(CropError::Bounds(BoundsError::LeftTopOutOfBounds)),
{
}

/// With the left-top corner inside the image, a right-bottom corner beyond
/// the image's width or height fails the job with the right-bottom kind,
/// and the job hands nothing over for writing.
pub proof fn law_right_bottom_outside_fails(
    file_name: Seq<char>,
    bytes: Seq<u8>,
    tag: Seq<char>,
    format: Format,
    width: u32,
    height: u32,
    pixels: Seq<u8>,
    rect: Rectangle,
)
    requires
        pixels.len() == byte_count(width, height),
        rect.left_top.x < width && rect.left_top.y < height,
        rect.right_bottom.x > width || rect.right_bottom.y > height,
    ensures
        outcome_after_decoding(
            file_name,
            bytes,
            rect,
            tag,
            format,
            Some((width, height, pixels)),
        ) == Err::<
            CropOutputView,
            CropError,
        >(CropError::Bounds(BoundsError::RightBottomOutOfBounds)),
{
}

/// With both corners within the image, a right-bottom corner that is not
/// strictly right of and below the left-top corner fails the job with the
/// extent kind, and the job hands nothing over for writing.
pub proof fn law_empty_extent_fails(
    file_name: Seq<char>,
    bytes: Seq<u8>,
    tag: Seq<char>,
    format: Format,
    width: u32,
    height: u32,
    pixels: Seq<u8>,
    rect: Rectangle,
)
    requires
        pixels.len() == byte_count(width, height),
        rect.left_top.x < width && rect.left_top.y < height,
        rect.right_bottom.x <= width && rect.right_bottom.y <= height,
        rect.right_bottom.x <= rect.left_top.x || rect.right_bottom.y <= rect.left_top.y,
    ensures
        outcome_after_decoding(
            file_name,
            bytes,
            rect,
            tag,
            format,
            Some((width, height, pixels)),
        ) == Err::<
            CropOutputView,
            CropError,
        >(CropError::Bounds(BoundsError::NonPositiveExtent)),
{
}

/// Checks the rectangle against a decoded image and cuts it out. Fails with
/// `Decode` where there is no image or where it is malformed, and with the
/// broken rule where the rectangle does not fit.
pub fn crop_decoded(decoded: Option<Raster>, rect: &Rectangle) -> (r: Result<Raster, CropError>)
    ensures
        match r {
            Ok(out) => out.wf() && cropped(
                match decoded {
                    Some(img) => Some(img.parts()),
                    None => None,
                },
                *rect,
            ) == Ok::<(u32, u32, Seq<u8>), CropError>(out.parts()),
            Err(e) => cropped(
                match decoded {
                    Some(img) => Some(img.parts()),
                    None => None,
                },
                *rect,
            ) == Err::<(u32, u32, Seq<u8>), CropError>(e),
        },
        decoded matches Some(img) && img.wf() && rect.fits(img.width, img.height) ==> r is Ok,
{
    match decoded {
        None => Err(CropError::Decode),
        Some(img) => {
            if !img.is_well_formed() {
                return Err(CropError::Decode);
            }
            match img.crop(rect) {
                Err(e) => Err(CropError::Bounds(e)),
                Ok(out) => Ok(out),
            }
        },
    }
}

/// Puts together what a job hands over, from the source file's name and
/// bytes and the outcome of encoding the cropped image. Fails with `Write`
/// where nothing was encoded.
pub fn pack_output(file_name: &str, tag: &str, bytes: Vec<u8>, encoded: Option<Vec<u8>>) -> (r:
    Result<CropOutput, CropError>)
    ensures
        match r {
            Ok(out) => packed(
                file_name@,
                tag@,
                bytes@,
                match encoded {
                    Some(e) => Some(e@),
                    None => None,
                },
            ) == Ok::<CropOutputView, CropError>(out@),
            Err(e) => e == CropError::Write && encoded is None,
        },
{
    match encoded {
        None => Err(CropError::Write),
        Some(out) => Ok(
            CropOutput {
                cropped_name: tagged_file_name(file_name, tag),
                cropped_bytes: out,
                archive_name: file_name.to_owned(),
                archive_bytes: bytes,
            },
        ),
    }
}

/// Runs one job on the bytes of its source file: reads the format off the
/// file name, decodes the bytes, checks the rectangle against the image,
/// cuts it out, and encodes the cut in the same format. On success the
/// output holds the cropped image under the tagged name and the untouched
/// bytes of the source under the source's name; on failure nothing is
/// handed over for writing.
pub fn crop_image(file_name: &str, bytes: Vec<u8>, rect: &Rectangle, tag: &str) -> (r: Result<
    CropOutput,
    CropError,
>)
    ensures
        match r {
            Ok(out) => job_outcome(file_name@, bytes@, *rect, tag@) == Ok::<
                CropOutputView,
                CropError,
            >(out@),
            Err(e) => job_outcome(file_name@, bytes@, *rect, tag@) == Err::<
                CropOutputView,
                CropError,
            >(e),
        },
        r matches Ok(out) ==> out.cropped_name@ == tagged_name(file_name@, tag@)
            && out.archive_name@ == file_name@ && out.archive_bytes@ == bytes@,
{
    let format = match format_of(file_name) {
        None => {
            return Err(CropError::Decode);
        },
        Some(format) => format,
    };
    let decoded = decode_rgba(format, &bytes);
    let part = match crop_decoded(decoded, rect) {
        Err(e) => {
            return Err(e);
        },
        Ok(part) => part,
    };
    let encoded = encode_rgba(format, &part);
    pack_output(file_name, tag, bytes, encoded)
}

} // verus!
