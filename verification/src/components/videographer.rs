use vstd::prelude::*;

use crate::components::shapes::rectangle::outside_rect;
use crate::components::transform::Transform;
use crate::config::WanderballConfig;
use crate::resources::save::VideographerRecord;
use crate::side::Side;

verus! {

/// How high above the path the camera holder sits.
pub const CAMERA_Z: i32 = 2;

/// The view as a rectangle of the plane: its centre and its size.
pub struct Viewport {
    pub x: int,
    pub y: int,
    pub width: int,
    pub height: int,
}

impl Viewport {
    pub open spec fn left(self) -> int {
        self.x - self.width / 2
    }

    pub open spec fn right(self) -> int {
        self.x + self.width / 2
    }

    pub open spec fn bottom(self) -> int {
        self.y - self.height / 2
    }

    pub open spec fn top(self) -> int {
        self.y + self.height / 2
    }

    /// The side of the view that the grid point `(x, y)` lies beyond, if it
    /// lies beyond one: the first such side in the order left, right,
    /// bottom, top.
    pub open spec fn beyond(self, x: int, y: int) -> Option<Side> {
        outside_rect(x, y, self.left(), self.bottom(), self.right(), self.top())
    }

    /// Where the centre of the view belongs after a page towards `side`:
    /// one full width to the left or right, or one full height down or up.
    pub open spec fn page_target(self, side: Side) -> (int, int) {
        match side {
            Side::Left => (self.x - self.width, self.y),
            Side::Right => (self.x + self.width, self.y),
            Side::Bottom => (self.x, self.y - self.height),
            Side::Top => (self.x, self.y + self.height),
        }
    }

    /// The step by which one tick of zooming changes both sides of the
    /// view: the longer side divided by `divisor`.
    pub open spec fn zoom_step(self, divisor: int) -> int {
        if self.width >= self.height {
            self.width / divisor
        } else {
            self.height / divisor
        }
    }

    /// The view after a tick of zooming. A positive `zoom` shrinks both
    /// sides by the step, a negative one grows them by it as far as a `u32`
    /// goes, and either way no side ends below `floor`. Without `zoom` the
    /// view stays as it is.
    pub open spec fn zoomed(self, zoom: int, divisor: int, floor: int) -> Viewport {
        let step = self.zoom_step(divisor);
        if zoom > 0 {
            Viewport {
                x: self.x,
                y: self.y,
                width: at_least(self.width - step, floor),
                height: at_least(self.height - step, floor),
            }
        } else if zoom < 0 {
            Viewport {
                x: self.x,
                y: self.y,
                width: at_least(at_most(self.width + step, u32::MAX as int), floor),
                height: at_least(at_most(self.height + step, u32::MAX as int), floor),
            }
        } else {
            self
        }
    }

    /// The view after it has paged for a ball at `(x, y)`: where the ball
    /// lies beyond a side, the centre goes to the page target of that side,
    /// as near to it as an `i32` can be; where it lies beyond none, the view
    /// stays.
    pub open spec fn paged(self, x: int, y: int) -> Viewport {
        match self.beyond(x, y) {
            Some(side) => Viewport {
                x: at_least(at_most(self.page_target(side).0, i32::MAX as int), i32::MIN as int),
                y: at_least(at_most(self.page_target(side).1, i32::MAX as int), i32::MIN as int),
                width: self.width,
                height: self.height,
            },
            None => self,
        }
    }
}

/// The larger of `v` and `low`.
pub open spec fn at_least(v: int, low: int) -> int {
    if v >= low {
        v
    } else {
        low
    }
}

/// The smaller of `v` and `high`.
pub open spec fn at_most(v: int, high: int) -> int {
    if v <= high {
        v
    } else {
        high
    }
}

/// The rectangle that the camera shows.
#[derive(Debug, Clone, Copy, PartialEq, Eq, Structural)]
pub struct Videographer {
    pub view_width: u32,
    pub view_height: u32,
    pub view_x: i32,
    pub view_y: i32,
}

impl View for Videographer {
    type V = Viewport;

    open spec fn view(&self) -> Viewport {
        Viewport {
            x: self.view_x as int,
            y: self.view_y as int,
            width: self.view_width as int,
            height: self.view_height as int,
        }
    }
}

impl Default for Videographer {
    fn default() -> (v: Videographer)
        ensures
            v@ == (Viewport { x: 0, y: 0, width: 0, height: 0 }),
    {
        Videographer { view_width: 0, view_height: 0, view_x: 0, view_y: 0 }
    }
}

/// The camera holder at the start of a game: a view of the configured size
/// whose lower left corner is the origin (for an odd size, half a grid unit
/// beyond it), at the camera's height.
pub fn initialize_videographer(config: &WanderballConfig) -> (record: VideographerRecord)
    ensures
        record.videographer@ == (Viewport {
            x: config.view_width as int / 2,
            y: config.view_height as int / 2,
            width: config.view_width as int,
            height: config.view_height as int,
        }),
        record.transform == (Transform {
            x: record.videographer.view_x,
            y: record.videographer.view_y,
            z: CAMERA_Z,
            quarter_turn: false,
        }),
{
    let videographer = Videographer {
        view_width: config.view_width,
        view_height: config.view_height,
        view_x: (config.view_width / 2) as i32,
        view_y: (config.view_height / 2) as i32,
    };
    VideographerRecord {
        videographer,
        transform: Transform {
            x: videographer.view_x,
            y: videographer.view_y,
            z: CAMERA_Z,
            quarter_turn: false,
        },
    }
}

/// When the ball lies beyond a side of the view and the page target can be
/// written down, paging puts the centre exactly there: one full width or
/// height away, along the axis of that side only, and the size stays. When
/// the ball lies beyond no side, the view stays.
pub proof fn lemma_paging_is_discrete(v: Viewport, x: int, y: int)
    ensures
        v.paged(x, y).width == v.width,
        v.paged(x, y).height == v.height,
        v.beyond(x, y) is None ==> v.paged(x, y) == v,
        v.beyond(x, y) matches Some(side) ==> ({
            let target = v.page_target(side);
            &&& (side == Side::Left || side == Side::Right) ==> target.1 == v.y && (target.0
                - v.x == v.width || v.x - target.0 == v.width)
            &&& (side == Side::Bottom || side == Side::Top) ==> target.0 == v.x && (target.1
                - v.y == v.height || v.y - target.1 == v.height)
            &&& i32::MIN <= target.0 <= i32::MAX && i32::MIN <= target.1 <= i32::MAX ==> v.paged(
                x,
                y,
            ).x == target.0 && v.paged(x, y).y == target.1
        }),
{
}

/// After a tick of zooming, in or out, neither side of the view is below
/// the floor; and a view whose sides are not below the floor keeps them so
/// through any tick.
pub proof fn lemma_zoom_keeps_floor(v: Viewport, zoom: int, divisor: int, floor: int)
    ensures
        zoom != 0 ==> v.zoomed(zoom, divisor, floor).width >= floor && v.zoomed(
            zoom,
            divisor,
            floor,
        ).height >= floor,
        v.width >= floor && v.height >= floor ==> v.zoomed(zoom, divisor, floor).width >= floor
            && v.zoomed(zoom, divisor, floor).height >= floor,
        v.zoomed(zoom, divisor, floor).x == v.x,
        v.zoomed(zoom, divisor, floor).y == v.y,
{
}

} // verus!
