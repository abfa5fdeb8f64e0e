use vstd::prelude::*;

use crate::components::shapes::rectangle::{in_rect, point_in_rect};
use crate::components::videographer::{Videographer, Viewport};
use crate::resources::save::{Agent, BallRecord, PathSegmentRecord, Tile};

verus! {

/// How a segment is to be drawn this tick.
#[derive(Debug, Clone, Copy, PartialEq, Eq, Structural)]
pub struct SegmentDisplay {
    /// The ball is at the segment's centre: the segment is to be marked as
    /// walked on, and stays so.
    pub touched: bool,
    /// The segment is too far from the view to be drawn.
    pub hidden: bool,
}

/// Whether the ball touches the centre of the tile: its centre is no
/// farther from the tile's than its radius and `reach`, along both axes.
pub open spec fn touches(tile: Tile, ball: Agent, reach: int) -> bool {
    in_rect(
        ball.x,
        ball.y,
        tile.x - reach - ball.radius,
        tile.y - reach - ball.radius,
        tile.x + reach + ball.radius,
        tile.y + reach + ball.radius,
    )
}

/// Whether the centre of the tile is more than a full width of the view
/// away from the view's centre along x, or more than a full height along y.
pub open spec fn out_of_sight(tile: Tile, view: Viewport) -> bool {
    tile.x > view.x + view.width || tile.x < view.x - view.width || tile.y > view.y + view.height
        || tile.y < view.y - view.height
}

/// Marks the segments that the ball has walked on and hides those far from
/// the view.
#[derive(Debug, Clone, Copy, PartialEq, Eq, Structural)]
pub struct PathSegmentSystem {
    /// How far beyond its own radius the ball reaches when it touches the
    /// centre of a segment.
    pub touch_reach: u32,
}

impl Default for PathSegmentSystem {
    fn default() -> (system: PathSegmentSystem)
        ensures
            system.touch_reach == 1,
    {
        PathSegmentSystem { touch_reach: 1 }
    }
}

impl PathSegmentSystem {
    /// Says for one segment whether the ball touches its centre and whether
    /// it is out of sight.
    pub fn run(
        &self,
        segment: &PathSegmentRecord,
        ball: &BallRecord,
        videographer: &Videographer,
    ) -> (display: SegmentDisplay)
        ensures
            display.touched == touches(segment@, ball@, self.touch_reach as int),
            display.hidden == out_of_sight(segment@, videographer@),
    {
        let x: i64 = segment.transform.x as i64;
        let y: i64 = segment.transform.y as i64;
        let reach: i64 = self.touch_reach as i64 + ball.circle.radius as i64;
        let touched = point_in_rect(
            ball.transform.x as i64,
            ball.transform.y as i64,
            x - reach,
            y - reach,
            x + reach,
            y + reach,
        );
        let view_x: i64 = videographer.view_x as i64;
        let view_y: i64 = videographer.view_y as i64;
        let width: i64 = videographer.view_width as i64;
        let height: i64 = videographer.view_height as i64;
        let hidden = x > view_x + width || x < view_x - width || y > view_y + height || y < view_y
            - height;
        SegmentDisplay { touched, hidden }
    }
}

} // verus!
