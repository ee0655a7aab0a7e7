//! The closed set of failures that the library reports.

use vstd::prelude::*;
use vstd::string::*;

verus! {

/// Why a rectangle does not fit an image.
#[derive(Clone, Copy, Debug, PartialEq, Eq, Structural)]
pub enum BoundsError {
    /// The left-top corner lies outside the image.
    LeftTopOutOfBounds,
    /// The right-bottom corner lies beyond the image's width or height.
    RightBottomOutOfBounds,
    /// The right-bottom corner is not strictly below and right of the left-top corner.
    NonPositiveExtent,
}

/// Why a coordinate string was rejected.
#[derive(Clone, Copy, Debug, PartialEq, Eq, Structural)]
pub enum CoordError {
    /// The string does not hold exactly one comma.
    NotAPair,
    /// The part before the comma is not an unsigned 32-bit integer.
    BadX,
    /// The part after the comma is not an unsigned 32-bit integer.
    BadY,
}

/// Every failure of a run or of one job.
#[derive(Clone, Copy, Debug, PartialEq, Eq, Structural)]
pub enum CropError {
    /// The source names neither a file nor a directory.
    PathNotFound,
    /// The children of the source directory could not be listed.
    DirectoryRead,
    /// The image could not be decoded.
    Decode,
    /// The rectangle does not fit the decoded image.
    Bounds(BoundsError),
    /// The cropped image could not be encoded for writing.
    Write,
}

impl BoundsError {
    /// The text of the message, as a sequence of characters.
    pub open spec fn message_text(self) -> Seq<char> {
        match self {
            BoundsError::LeftTopOutOfBounds => "Left-top coordinates are out of image bounds"@,
            BoundsError::RightBottomOutOfBounds => "Right-bottom coordinates are out of image bounds"@,
            BoundsError::NonPositiveExtent => "Right-bottom coordinates should be greater than left-top coordinates"@,
        }
    }

    /// A human-readable message that tells the three kinds apart.
    pub fn message(&self) -> (r: String)
        ensures
            r@ == self.message_text(),
    {
        match self {
            BoundsError::LeftTopOutOfBounds => String::from_str(
                "Left-top coordinates are out of image bounds",
            ),
            BoundsError::RightBottomOutOfBounds => String::from_str(
                "Right-bottom coordinates are out of image bounds",
            ),
            BoundsError::NonPositiveExtent => String::from_str(
                "Right-bottom coordinates should be greater than left-top coordinates",
            ),
        }
    }
}

impl CoordError {
    /// The text of the message, as a sequence of characters.
    pub open spec fn message_text(self) -> Seq<char> {
        match self {
            CoordError::NotAPair => "Coordinates must be two integers separated by one comma"@,
            CoordError::BadX => "The first coordinate is not an unsigned 32-bit integer"@,
            CoordError::BadY => "The second coordinate is not an unsigned 32-bit integer"@,
        }
    }

    /// A human-readable message for a rejected coordinate string.
    pub fn message(&self) -> (r: String)
        ensures
            r@ == self.message_text(),
    {
        match self {
            CoordError::NotAPair => String::from_str(
                "Coordinates must be two integers separated by one comma",
            ),
            CoordError::BadX => String::from_str(
                "The first coordinate is not an unsigned 32-bit integer",
            ),
            CoordError::BadY => String::from_str(
                "The second coordinate is not an unsigned 32-bit integer",
            ),
        }
    }
}

/// The exit code of each kind of failure: none is 0, and no two kinds share one.
pub open spec fn exit_code_of(e: CropError) -> u8 {
    match e {
        CropError::PathNotFound => 3,
        CropError::DirectoryRead => 4,
        CropError::Decode => 5,
        CropError::Bounds(BoundsError::LeftTopOutOfBounds) => 6,
        CropError::Bounds(BoundsError::RightBottomOutOfBounds) => 7,
        CropError::Bounds(BoundsError::NonPositiveExtent) => 8,
        CropError::Write => 9,
    }
}

/// Two failures have the same exit code only where they are the same
/// failure, and no failure has the exit code of success.
pub proof fn law_exit_codes_tell_failures_apart(a: CropError, b: CropError)
    ensures
        exit_code_of(a) != 0,
        exit_code_of(a) == exit_code_of(b) <==> a == b,
{
}

impl CropError {
    /// The exit code with which a run that ends on this failure leaves.
    pub fn exit_code(&self) -> (r: u8)
        ensures
            r == exit_code_of(*self),
    {
        match self {
            CropError::PathNotFound => 3,
            CropError::DirectoryRead => 4,
            CropError::Decode => 5,
            CropError::Bounds(BoundsError::LeftTopOutOfBounds) => 6,
            CropError::Bounds(BoundsError::RightBottomOutOfBounds) => 7,
            CropError::Bounds(BoundsError::NonPositiveExtent) => 8,
            CropError::Write => 9,
        }
    }

    /// The text of the message, as a sequence of characters.
    pub open spec fn message_text(self) -> Seq<char> {
        match self {
            CropError::PathNotFound => "File or directory not found"@,
            CropError::DirectoryRead => "The directory could not be read"@,
            CropError::Decode => "The image could not be decoded"@,
            CropError::Bounds(b) => b.message_text(),
            CropError::Write => "The cropped image could not be encoded"@,
        }
    }

    /// A human-readable message that names the stage that failed.
    pub fn message(&self) -> (r: String)
        ensures
            r@ == self.message_text(),
    {
        match self {
            CropError::PathNotFound => String::from_str("File or directory not found"),
            CropError::DirectoryRead => String::from_str("The directory could not be read"),
            CropError::Decode => String::from_str("The image could not be decoded"),
            CropError::Bounds(b) => b.message(),
            CropError::Write => String::from_str("The cropped image could not be encoded"),
        }
    }
}

} // verus!
