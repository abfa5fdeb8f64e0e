use vstd::prelude::*;

use crate::side::Side;

verus! {

/// The size of an axis-aligned rectangle, in grid units.
#[derive(Debug, Clone, Copy, PartialEq, Eq, Structural)]
pub struct Rectangle {
    pub width: u32,
    pub height: u32,
}

impl Rectangle {
    pub fn new(width: u32, height: u32) -> (r: Rectangle)
        ensures
            r.width == width,
            r.height == height,
    {
        Rectangle { width, height }
    }
}

impl Default for Rectangle {
    fn default() -> (r: Rectangle)
        ensures
            r.width == 0,
            r.height == 0,
    {
        Rectangle { width: 0, height: 0 }
    }
}

/// Whether `(x, y)` lies in the closed rectangle with the given edges.
pub open spec fn in_rect(x: int, y: int, left: int, bottom: int, right: int, top: int) -> bool {
    left <= x <= right && bottom <= y <= top
}

/// The first side of the closed rectangle that `(x, y)` lies beyond, the
/// sides being asked in the order left, right, bottom, top.
pub open spec fn outside_rect(
    x: int,
    y: int,
    left: int,
    bottom: int,
    right: int,
    top: int,
) -> Option<Side> {
    if x < left {
        Some(Side::Left)
    } else if x > right {
        Some(Side::Right)
    } else if y < bottom {
        Some(Side::Bottom)
    } else if y > top {
        Some(Side::Top)
    } else {
        None
    }
}

/// Tests whether a point lies in a rectangle, edges included.
pub fn point_in_rect(x: i64, y: i64, left: i64, bottom: i64, right: i64, top: i64) -> (inside: bool)
    ensures
        inside == in_rect(x as int, y as int, left as int, bottom as int, right as int, top as int),
{
    x >= left && x <= right && y >= bottom && y <= top
}

/// Names the side of a rectangle that a point lies beyond, or `None` for a
/// point inside it. A point beyond two sides is reported for the one that
/// comes first in the order left, right, bottom, top.
pub fn point_outside_rect(x: i64, y: i64, left: i64, bottom: i64, right: i64, top: i64) -> (side:
    Option<Side>)
    ensures
        side == outside_rect(
            x as int,
            y as int,
            left as int,
            bottom as int,
            right as int,
            top as int,
        ),
{
    if x < left {
        Some(Side::Left)
    } else if x > right {
        Some(Side::Right)
    } else if y < bottom {
        Some(Side::Bottom)
    } else if y > top {
        Some(Side::Top)
    } else {
        None
    }
}

/// A point is inside a rectangle exactly when it lies beyond none of its
/// sides.
pub proof fn lemma_inside_iff_beyond_no_side(
    x: int,
    y: int,
    left: int,
    bottom: int,
    right: int,
    top: int,
)
    ensures
        in_rect(x, y, left, bottom, right, top) <==> outside_rect(x, y, left, bottom, right, top)
            is None,
{
}

} // verus!
