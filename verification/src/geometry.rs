//! Points, rectangles, and the rule that decides whether a rectangle fits an image.

use vstd::prelude::*;
use crate::error::BoundsError;

verus! {

/// A pixel position: `x` counts columns from the left, `y` rows from the top.
#[derive(Clone, Copy, Debug, PartialEq, Eq, Structural)]
pub struct Point {
    pub x: u32,
    pub y: u32,
}

/// The region to cut out, given by its left-top corner (inside) and its
/// right-bottom corner (just outside).
#[derive(Clone, Copy, Debug, PartialEq, Eq, Structural)]
pub struct Rectangle {
    pub left_top: Point,
    pub right_bottom: Point,
}

impl Rectangle {
    /// The left-top corner lies outside an image of the given size.
    pub open spec fn left_top_outside(self, width: u32, height: u32) -> bool {
        self.left_top.x >= width || self.left_top.y >= height
    }

    /// The right-bottom corner lies beyond an image of the given size.
    pub open spec fn right_bottom_outside(self, width: u32, height: u32) -> bool {
        self.right_bottom.x > width || self.right_bottom.y > height
    }

    /// The rectangle holds no pixel.
    pub open spec fn empty_extent(self) -> bool {
        self.right_bottom.x <= self.left_top.x || self.right_bottom.y <= self.left_top.y
    }

    /// The rectangle is a valid crop of an image of the given size.
    pub open spec fn fits(self, width: u32, height: u32) -> bool {
        &&& self.left_top.x < self.right_bottom.x <= width
        &&& self.left_top.y < self.right_bottom.y <= height
    }

    /// Width and height of the rectangle, where it is not empty.
    pub open spec fn extent(self) -> (u32, u32)
        recommends
            !self.empty_extent(),
    {
        (
            (self.right_bottom.x - self.left_top.x) as u32,
            (self.right_bottom.y - self.left_top.y) as u32,
        )
    }

    /// What checking the rectangle against an image of the given size yields:
    /// the crop's size, or the first rule that is broken, the left-top corner
    /// being looked at first, then the right-bottom corner, then the extent.
    pub open spec fn checked(self, width: u32, height: u32) -> Result<(u32, u32), BoundsError> {
        if self.left_top_outside(width, height) {
            Err(BoundsError::LeftTopOutOfBounds)
        } else if self.right_bottom_outside(width, height) {
            Err(BoundsError::RightBottomOutOfBounds)
        } else if self.empty_extent() {
            Err(BoundsError::NonPositiveExtent)
        } else {
            Ok(self.extent())
        }
    }

    /// Makes a rectangle from its two corners, each given as `(x, y)`.
    pub fn new(left_top: (u32, u32), right_bottom: (u32, u32)) -> (r: Rectangle)
        ensures
            r.left_top.x == left_top.0,
            r.left_top.y == left_top.1,
            r.right_bottom.x == right_bottom.0,
            r.right_bottom.y == right_bottom.1,
    {
        Rectangle {
            left_top: Point { x: left_top.0, y: left_top.1 },
            right_bottom: Point { x: right_bottom.0, y: right_bottom.1 },
        }
    }

    /// Checks the rectangle against an image's size and returns the size of
    /// the crop, `(right_bottom.x - left_top.x, right_bottom.y - left_top.y)`.
    pub fn check(&self, width: u32, height: u32) -> (r: Result<(u32, u32), BoundsError>)
        ensures
            r == self.checked(width, height),
            r is Ok <==> self.fits(width, height),
            self.fits(width, height) ==> r == Ok::<(u32, u32), BoundsError>(
                (
                    (self.right_bottom.x - self.left_top.x) as u32,
                    (self.right_bottom.y - self.left_top.y) as u32,
                ),
            ),
            self.left_top_outside(width, height) ==> r == Err::<(u32, u32), BoundsError>(
                BoundsError::LeftTopOutOfBounds,
            ),
            !self.left_top_outside(width, height) && self.right_bottom_outside(width, height)
                ==> r == Err::<(u32, u32), BoundsError>(BoundsError::RightBottomOutOfBounds),
            !self.left_top_outside(width, height) && !self.right_bottom_outside(width, height)
                && self.empty_extent() ==> r == Err::<(u32, u32), BoundsError>(
                BoundsError::NonPositiveExtent,
            ),
    {
        if self.left_top.x >= width || self.left_top.y >= height {
            return Err(BoundsError::LeftTopOutOfBounds);
        }
        if self.right_bottom.x > width || self.right_bottom.y > height {
            return Err(BoundsError::RightBottomOutOfBounds);
        }
        if self.right_bottom.x <= self.left_top.x || self.right_bottom.y <= self.left_top.y {
            return Err(BoundsError::NonPositiveExtent);
        }
        Ok((self.right_bottom.x - self.left_top.x, self.right_bottom.y - self.left_top.y))
    }
}

} // verus!
