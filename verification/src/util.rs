use vstd::prelude::*;

use crate::components::shapes::rectangle::in_rect;
use crate::side::Side;

verus! {

/// A point of the plane.
#[derive(Debug, Clone, Copy, PartialEq, Eq, Structural)]
pub struct Point {
    pub x: i64,
    pub y: i64,
}

/// An axis-aligned rectangle, given by its four edges.
#[derive(Debug, Clone, Copy, PartialEq, Eq, Structural)]
pub struct Rectangle {
    pub left: i64,
    pub bottom: i64,
    pub right: i64,
    pub top: i64,
}

/// The first side, in the order right, left, top, bottom, of the square
/// that reaches `dist_to_edge` from the centre `(cx, cy)` which the point
/// `(x, y)` lies on or beyond.
pub open spec fn on_edge(x: int, y: int, cx: int, cy: int, dist_to_edge: int) -> Option<Side> {
    if x >= cx + dist_to_edge {
        Some(Side::Right)
    } else if x <= cx - dist_to_edge {
        Some(Side::Left)
    } else if y >= cy + dist_to_edge {
        Some(Side::Top)
    } else if y <= cy - dist_to_edge {
        Some(Side::Bottom)
    } else {
        None
    }
}

/// Whether `offset`, the distance of a point from the centre towards one
/// side, lies in the margin about that side: no more than `threshold` short
/// of `dist_to_edge` and no more than `threshold` beyond it.
pub open spec fn in_margin(offset: int, dist_to_edge: int, threshold: int) -> bool {
    dist_to_edge - threshold <= offset <= dist_to_edge + threshold
}

/// The first side, in the order left, right, bottom, top, of the square that
/// reaches `dist_to_edge` from the centre `(cx, cy)` in whose margin the
/// point `(x, y)` lies.
pub open spec fn near_edge(
    x: int,
    y: int,
    cx: int,
    cy: int,
    dist_to_edge: int,
    threshold: int,
) -> Option<Side> {
    if in_margin(cx - x, dist_to_edge, threshold) {
        Some(Side::Left)
    } else if in_margin(x - cx, dist_to_edge, threshold) {
        Some(Side::Right)
    } else if in_margin(cy - y, dist_to_edge, threshold) {
        Some(Side::Bottom)
    } else if in_margin(y - cy, dist_to_edge, threshold) {
        Some(Side::Top)
    } else {
        None
    }
}

/// Tests whether a point lies in a rectangle, edges included.
pub fn _point_in_rect(point: &Point, rect: &Rectangle) -> (inside: bool)
    ensures
        inside == in_rect(
            point.x as int,
            point.y as int,
            rect.left as int,
            rect.bottom as int,
            rect.right as int,
            rect.top as int,
        ),
{
    point.x >= rect.left && point.x <= rect.right && point.y >= rect.bottom && point.y <= rect.top
}

/// Names the side of a square that a point lies on or beyond, the square
/// being given by its centre and the distance from there to each edge. The
/// sides are asked in the order right, left, top, bottom.
pub fn _point_on_edge_of_rect(point: Point, rect_center: Point, dist_to_edge: i64) -> (side: Option<
    Side,
>)
    ensures
        side == on_edge(
            point.x as int,
            point.y as int,
            rect_center.x as int,
            rect_center.y as int,
            dist_to_edge as int,
        ),
{
    let dx: i128 = point.x as i128 - rect_center.x as i128;
    let dy: i128 = point.y as i128 - rect_center.y as i128;
    let d: i128 = dist_to_edge as i128;
    if dx >= d {
        Some(Side::Right)
    } else if dx <= -d {
        Some(Side::Left)
    } else if dy >= d {
        Some(Side::Top)
    } else if dy <= -d {
        Some(Side::Bottom)
    } else {
        None
    }
}

/// Names the side of a square that a point is near: within `threshold` of
/// the edge, on either side of it. The square is given by its centre and the
/// distance from there to each edge; the sides are asked in the order left,
/// right, bottom, top.
pub fn point_near_edge_of_rect(
    point: &Point,
    rect_center: &Point,
    dist_to_edge: i64,
    threshold: i64,
) -> (side: Option<Side>)
    ensures
        side == near_edge(
            point.x as int,
            point.y as int,
            rect_center.x as int,
            rect_center.y as int,
            dist_to_edge as int,
            threshold as int,
        ),
{
    let dx: i128 = point.x as i128 - rect_center.x as i128;
    let dy: i128 = point.y as i128 - rect_center.y as i128;
    let low: i128 = dist_to_edge as i128 - threshold as i128;
    let high: i128 = dist_to_edge as i128 + threshold as i128;
    if low <= -dx && -dx <= high {
        Some(Side::Left)
    } else if low <= dx && dx <= high {
        Some(Side::Right)
    } else if low <= -dy && -dy <= high {
        Some(Side::Bottom)
    } else if low <= dy && dy <= high {
        Some(Side::Top)
    } else {
        None
    }
}

} // verus!
