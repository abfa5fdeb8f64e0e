use vstd::prelude::*;

verus! {

/// What the game is set up with. Lengths and positions are in grid units;
/// the two zoom factors are divisors and `path_length` is a count.
#[derive(Debug, Clone, Copy, PartialEq, Eq, Structural)]
pub struct WanderballConfig {
    pub view_height: u32,
    pub view_width: u32,
    /// Neither side of the view ever shrinks below this.
    pub view_floor: u32,
    pub ball_radius: u32,
    pub path_segment_height: u32,
    pub path_segment_width: u32,
    /// How many segments the path has; a count of zero still gives the
    /// first segment.
    pub path_length: usize,
    /// Grid units the ball moves per tick and unit of input.
    pub move_factor: i32,
    pub fast_move_factor: i32,
    /// The longer side of the view is divided by this to give the step of
    /// one tick of zooming.
    pub zoom_factor: u32,
    pub fast_zoom_factor: u32,
    pub start_x: i32,
    pub start_y: i32,
    pub start_path_z: i32,
    pub start_ball_z: i32,
}

/// The farthest that one step of the path can carry its centre along either
/// axis: a straight step covers a segment's width, a turn half of width plus
/// height.
pub open spec fn stride(width: int, height: int) -> int {
    if width >= height {
        width
    } else {
        (width + height) / 2
    }
}

impl WanderballConfig {
    /// The number of segments of the path.
    pub open spec fn segment_count(self) -> nat {
        if self.path_length == 0 {
            1
        } else {
            self.path_length as nat
        }
    }

    /// Both sizes of a segment are positive and even, so that every edge of
    /// every segment falls on the grid.
    pub open spec fn segments_are_valid(self) -> bool {
        &&& self.path_segment_width > 0
        &&& self.path_segment_height > 0
        &&& self.path_segment_width % 2 == 0
        &&& self.path_segment_height % 2 == 0
    }

    /// No walk of `steps` steps from the start can leave the range of `i32`.
    pub open spec fn walk_fits(self, steps: nat) -> bool {
        let reach = steps * stride(
            self.path_segment_width as int,
            self.path_segment_height as int,
        );
        &&& i32::MIN <= self.start_x - reach
        &&& self.start_x + reach <= i32::MAX
        &&& i32::MIN <= self.start_y - reach
        &&& self.start_y + reach <= i32::MAX
    }

    /// The segment sizes and the start allow the whole path to be laid.
    pub open spec fn path_is_valid(self) -> bool {
        self.segments_are_valid() && self.walk_fits((self.segment_count() - 1) as nat)
    }

    /// The divisor that a tick of zooming uses.
    pub open spec fn zoom_divisor(self, fast: bool) -> int {
        if fast {
            self.fast_zoom_factor as int
        } else {
            self.zoom_factor as int
        }
    }

    /// The speed of the ball: the fast one while `fast` is held.
    pub fn speed(&self, fast: bool) -> (s: i32)
        ensures
            s == if fast {
                self.fast_move_factor
            } else {
                self.move_factor
            },
    {
        if fast {
            self.fast_move_factor
        } else {
            self.move_factor
        }
    }

    /// Tests `path_is_valid()`.
    pub fn check_path(&self) -> (ok: bool)
        ensures
            ok == self.path_is_valid(),
    {
        let w: u32 = self.path_segment_width;
        let h: u32 = self.path_segment_height;
        if w == 0 || h == 0 || w % 2 != 0 || h % 2 != 0 {
            return false;
        }
        let steps: u128 = if self.path_length == 0 {
            0
        } else {
            (self.path_length - 1) as u128
        };
        let per_step: u128 = if w >= h {
            w as u128
        } else {
            (w as u128 + h as u128) / 2
        };
        assert(per_step == stride(w as int, h as int));
        assert(per_step <= u32::MAX);
        assert(steps * per_step <= usize::MAX * 0x1_0000_0000) by (nonlinear_arith)
            requires
                steps <= usize::MAX,
                per_step <= u32::MAX,
                per_step >= 0,
                steps >= 0,
        ;
        let reach: u128 = steps * per_step;
        if reach > 0xffff_ffff {
            assert(self.start_x + reach > i32::MAX);
            return false;
        }
        let reach: i64 = reach as i64;
        let x: i64 = self.start_x as i64;
        let y: i64 = self.start_y as i64;
        x - reach >= i32::MIN as i64 && x + reach <= i32::MAX as i64 && y - reach >= i32::MIN as i64
            && y + reach <= i32::MAX as i64
    }
}

impl Default for WanderballConfig {
    fn default() -> (c: WanderballConfig)
        ensures
            c == (WanderballConfig {
                view_height: 100,
                view_width: 100,
                view_floor: 100,
                ball_radius: 2,
                path_segment_height: 8,
                path_segment_width: 24,
                path_length: 100,
                move_factor: 1,
                fast_move_factor: 2,
                zoom_factor: 50,
                fast_zoom_factor: 10,
                start_x: 0,
                start_y: 0,
                start_path_z: 0,
                start_ball_z: 1,
            }),
            c.path_is_valid(),
    {
        let c = WanderballConfig {
            view_height: 100,
            view_width: 100,
            view_floor: 100,
            ball_radius: 2,
            path_segment_height: 8,
            path_segment_width: 24,
            path_length: 100,
            move_factor: 1,
            fast_move_factor: 2,
            zoom_factor: 50,
            fast_zoom_factor: 10,
            start_x: 0,
            start_y: 0,
            start_path_z: 0,
            start_ball_z: 1,
        };
        assert(c.path_is_valid()) by {
            assert(stride(24, 8) == 24);
            assert(c.segment_count() == 100);
            assert(99 * stride(24, 8) == 2376);
        }
        c
    }
}

} // verus!
