use imgcrop::error::{BoundsError, CropError};
use imgcrop::geometry::{Point, Rectangle};

#[test]
fn a_fitting_rectangle_gives_its_size() {
    let r = Rectangle::new((0, 0), (20, 15));
    assert_eq!(r.check(100, 50), Ok((20, 15)));
    let r = Rectangle::new((3, 4), (10, 9));
    assert_eq!(r.check(10, 9), Ok((7, 5)));
}

#[test]
fn new_keeps_the_corners() {
    let r = Rectangle::new((1, 2), (3, 4));
    assert_eq!(r.left_top, Point { x: 1, y: 2 });
    assert_eq!(r.right_bottom, Point { x: 3, y: 4 });
}

#[test]
fn right_bottom_may_touch_the_edge() {
    let r = Rectangle::new((0, 0), (8, 6));
    assert_eq!(r.check(8, 6), Ok((8, 6)));
}

#[test]
fn left_top_at_the_edge_is_outside() {
    assert_eq!(
        Rectangle::new((8, 0), (9, 1)).check(8, 6),
        Err(BoundsError::LeftTopOutOfBounds)
    );
    assert_eq!(
        Rectangle::new((0, 6), (1, 7)).check(8, 6),
        Err(BoundsError::LeftTopOutOfBounds)
    );
    assert_eq!(
        Rectangle::new((0, 0), (1, 1)).check(0, 0),
        Err(BoundsError::LeftTopOutOfBounds)
    );
}

#[test]
fn right_bottom_beyond_the_edge_is_outside() {
    assert_eq!(
        Rectangle::new((0, 0), (9, 6)).check(8, 6),
        Err(BoundsError::RightBottomOutOfBounds)
    );
    assert_eq!(
        Rectangle::new((0, 0), (8, 7)).check(8, 6),
        Err(BoundsError::RightBottomOutOfBounds)
    );
}

#[test]
fn an_empty_rectangle_is_refused() {
    assert_eq!(
        Rectangle::new((4, 1), (4, 5)).check(8, 6),
        Err(BoundsError::NonPositiveExtent)
    );
    assert_eq!(
        Rectangle::new((1, 4), (5, 4)).check(8, 6),
        Err(BoundsError::NonPositiveExtent)
    );
    assert_eq!(
        Rectangle::new((5, 5), (2, 2)).check(8, 6),
        Err(BoundsError::NonPositiveExtent)
    );
}

#[test]
fn the_left_top_rule_is_looked_at_first() {
    assert_eq!(
        Rectangle::new((10, 0), (20, 5)).check(5, 5),
        Err(BoundsError::LeftTopOutOfBounds)
    );
    assert_eq!(
        Rectangle::new((9, 9), (3, 3)).check(5, 5),
        Err(BoundsError::LeftTopOutOfBounds)
    );
}

#[test]
fn bounds_messages_name_the_kind() {
    assert_eq!(
        BoundsError::LeftTopOutOfBounds.message(),
        "Left-top coordinates are out of image bounds"
    );
    assert_eq!(
        BoundsError::RightBottomOutOfBounds.message(),
        "Right-bottom coordinates are out of image bounds"
    );
    assert_eq!(
        BoundsError::NonPositiveExtent.message(),
        "Right-bottom coordinates should be greater than left-top coordinates"
    );
    assert_eq!(
        CropError::Bounds(BoundsError::NonPositiveExtent).message(),
        BoundsError::NonPositiveExtent.message()
    );
    assert_eq!(CropError::PathNotFound.message(), "File or directory not found");
    assert_eq!(CropError::DirectoryRead.message(), "The directory could not be read");
    assert_eq!(CropError::Decode.message(), "The image could not be decoded");
    assert_eq!(CropError::Write.message(), "The cropped image could not be encoded");
}

#[test]
fn exit_codes_tell_the_failures_apart() {
    let all = [
        CropError::PathNotFound,
        CropError::DirectoryRead,
        CropError::Decode,
        CropError::Bounds(BoundsError::LeftTopOutOfBounds),
        CropError::Bounds(BoundsError::RightBottomOutOfBounds),
        CropError::Bounds(BoundsError::NonPositiveExtent),
        CropError::Write,
    ];
    let codes: Vec<u8> = all.iter().map(|e| e.exit_code()).collect();
    assert_eq!(codes, vec![3, 4, 5, 6, 7, 8, 9]);
    for (i, a) in all.iter().enumerate() {
        for (j, b) in all.iter().enumerate() {
            assert_eq!(a.exit_code() == b.exit_code(), i == j);
            assert_eq!(a.message() == b.message(), i == j);
        }
    }
}
