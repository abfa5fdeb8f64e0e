use vstd::prelude::*;

use crate::components::shapes::rectangle::point_outside_rect;
use crate::components::transform::Transform;
use crate::components::videographer::{at_least, at_most, Videographer, CAMERA_Z};
use crate::config::WanderballConfig;
use crate::resources::save::VideographerRecord;
use crate::side::Side;

verus! {

/// Zooms the view and pages it after the ball.
#[derive(Debug, Clone, Copy, PartialEq, Eq, Structural, Default)]
pub struct VideographerSystem;

impl VideographerSystem {
    /// One tick of the camera holder. First the view zooms: in for a
    /// positive `zoom`, out for a negative one, by the longer side divided
    /// by the configured factor (the fast one while `fast_zoom` is held),
    /// never to below the configured floor. Then, with the size it now has,
    /// the view pages if the ball at `(ball_x, ball_y)` lies beyond one of
    /// its sides: by its full width to the left or right, or by its full
    /// height down or up, and the holder moves with it.
    pub fn run(
        &self,
        record: &mut VideographerRecord,
        ball_x: i32,
        ball_y: i32,
        zoom: i32,
        fast_zoom: bool,
        config: &WanderballConfig,
    )
        requires
            zoom != 0 ==> config.zoom_divisor(fast_zoom) != 0,
        ensures
            final(record).videographer@ == old(record).videographer@.zoomed(
                zoom as int,
                config.zoom_divisor(fast_zoom),
                config.view_floor as int,
            ).paged(ball_x as int, ball_y as int),
            final(record).transform == if old(record).videographer@.zoomed(
                zoom as int,
                config.zoom_divisor(fast_zoom),
                config.view_floor as int,
            ).beyond(ball_x as int, ball_y as int) is Some {
                Transform {
                    x: final(record).videographer.view_x,
                    y: final(record).videographer.view_y,
                    z: CAMERA_Z,
                    quarter_turn: old(record).transform.quarter_turn,
                }
            } else {
                old(record).transform
            },
            zoom != 0 ==> final(record).videographer.view_width >= config.view_floor,
            zoom != 0 ==> final(record).videographer.view_height >= config.view_floor,
            zoom == 0 ==> final(record).videographer.view_width == old(record).videographer.view_width,
            zoom == 0 ==> final(record).videographer.view_height == old(record).videographer.view_height,
    {
        let zoomed = Self::zoom(
            &record.videographer,
            zoom,
            if fast_zoom {
                config.fast_zoom_factor
            } else {
                config.zoom_factor
            },
            config.view_floor,
        );
        let (paged, side) = Self::page(&zoomed, ball_x, ball_y);
        record.videographer = paged;
        if side.is_some() {
            record.transform.x = paged.view_x;
            record.transform.y = paged.view_y;
            record.transform.z = CAMERA_Z;
        }
    }

    /// The view after a tick of zooming with the given divisor and floor.
    pub fn zoom(view: &Videographer, zoom: i32, divisor: u32, floor: u32) -> (zoomed: Videographer)
        requires
            zoom != 0 ==> divisor != 0,
        ensures
            zoomed@ == view@.zoomed(zoom as int, divisor as int, floor as int),
    {
        if zoom == 0 {
            return *view;
        }
        let longer: u32 = if view.view_width >= view.view_height {
            view.view_width
        } else {
            view.view_height
        };
        let step: i64 = (longer / divisor) as i64;
        let change: i64 = if zoom > 0 {
            -step
        } else {
            step
        };
        Videographer {
            view_width: Self::to_side(view.view_width as i64 + change, floor),
            view_height: Self::to_side(view.view_height as i64 + change, floor),
            view_x: view.view_x,
            view_y: view.view_y,
        }
    }

    /// The view after it has paged for a ball at `(ball_x, ball_y)`, and the
    /// side beyond which the ball lay, if it lay beyond one.
    pub fn page(view: &Videographer, ball_x: i32, ball_y: i32) -> (paged: (Videographer, Option<Side>))
        ensures
            paged.0@ == view@.paged(ball_x as int, ball_y as int),
            paged.1 == view@.beyond(ball_x as int, ball_y as int),
    {
        let x: i64 = view.view_x as i64;
        let y: i64 = view.view_y as i64;
        let width: i64 = view.view_width as i64;
        let height: i64 = view.view_height as i64;
        let side = point_outside_rect(
            ball_x as i64,
            ball_y as i64,
            x - width / 2,
            y - height / 2,
            x + width / 2,
            y + height / 2,
        );
        let (to_x, to_y): (i64, i64) = match side {
            Some(Side::Left) => (x - width, y),
            Some(Side::Right) => (x + width, y),
            Some(Side::Bottom) => (x, y - height),
            Some(Side::Top) => (x, y + height),
            None => (x, y),
        };
        (
            Videographer {
                view_width: view.view_width,
                view_height: view.view_height,
                view_x: Self::to_i32(to_x),
                view_y: Self::to_i32(to_y),
            },
            side,
        )
    }

    /// The side length nearest to `v` that is a `u32` and not below `floor`.
    fn to_side(v: i64, floor: u32) -> (r: u32)
        ensures
            r == at_least(at_most(v as int, u32::MAX as int), floor as int),
    {
        if v > u32::MAX as i64 {
            u32::MAX
        } else if v < floor as i64 {
            floor
        } else {
            v as u32
        }
    }

    /// The `i32` nearest to `v`.
    fn to_i32(v: i64) -> (r: i32)
        ensures
            r == at_least(at_most(v as int, i32::MAX as int), i32::MIN as int),
    {
        if v > i32::MAX as i64 {
            i32::MAX
        } else if v < i32::MIN as i64 {
            i32::MIN
        } else {
            v as i32
        }
    }
}

} // verus!
