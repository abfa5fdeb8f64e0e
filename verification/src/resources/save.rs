use std::collections::HashMap;
use vstd::prelude::*;

use crate::components::shapes::circle::Circle;
use crate::components::shapes::rectangle::{in_rect, Rectangle};
use crate::components::transform::Transform;
use crate::components::videographer::Videographer;
use crate::components::wanderdata::{Pedometer, PedometerView};

verus! {

/// A segment of the path as a rectangle of the plane: its centre, its width
/// along x, its height along y, and whether it is drawn turned a quarter
/// turn.
pub struct Tile {
    pub x: int,
    pub y: int,
    pub z: int,
    pub width: int,
    pub height: int,
    pub rotated: bool,
}

impl Tile {
    pub open spec fn left(self) -> int {
        self.x - self.width / 2
    }

    pub open spec fn right(self) -> int {
        self.x + self.width / 2
    }

    pub open spec fn bottom(self) -> int {
        self.y - self.height / 2
    }

    pub open spec fn top(self) -> int {
        self.y + self.height / 2
    }

    /// Whether the grid point `(x, y)` lies on the tile, edges included.
    pub open spec fn contains(self, x: int, y: int) -> bool {
        in_rect(x, y, self.left(), self.bottom(), self.right(), self.top())
    }

    /// What a pedometer remembers a tile by: a number made of the centre's
    /// two coordinates.
    pub open spec fn identity(self) -> int {
        identity_of(self.x, self.y)
    }
}

/// The number that stands for the centre `(x, y)`: the coordinates, each
/// counted from the least `i32`, written as the two digits of a number in
/// base 2^32.
pub open spec fn identity_of(x: int, y: int) -> int {
    (x + 0x8000_0000) * 0x1_0000_0000 + (y + 0x8000_0000)
}

/// Two centres within the range of `i32` have the same identity only if they
/// are the same centre.
pub proof fn lemma_identity_is_injective(x1: int, y1: int, x2: int, y2: int)
    requires
        i32::MIN <= x1 <= i32::MAX,
        i32::MIN <= y1 <= i32::MAX,
        i32::MIN <= x2 <= i32::MAX,
        i32::MIN <= y2 <= i32::MAX,
        identity_of(x1, y1) == identity_of(x2, y2),
    ensures
        x1 == x2,
        y1 == y2,
{
}

/// Two tiles have a stretch of edge in common and no area: the rectangles
/// meet, what they share is longer than a point, and their interiors are
/// apart.
pub open spec fn edge_adjacent(a: Tile, b: Tile) -> bool {
    let left = if a.left() >= b.left() {
        a.left()
    } else {
        b.left()
    };
    let right = if a.right() <= b.right() {
        a.right()
    } else {
        b.right()
    };
    let bottom = if a.bottom() >= b.bottom() {
        a.bottom()
    } else {
        b.bottom()
    };
    let top = if a.top() <= b.top() {
        a.top()
    } else {
        b.top()
    };
    &&& left <= right
    &&& bottom <= top
    &&& left < right || bottom < top
    &&& left == right || bottom == top
}

/// One segment of the path: where its centre is, whether it is turned, and
/// its size as it lies (a turned segment has width and height exchanged).
#[derive(Debug, Clone, Copy, PartialEq, Eq, Structural)]
pub struct PathSegmentRecord {
    pub transform: Transform,
    pub rectangle: Rectangle,
}

impl View for PathSegmentRecord {
    type V = Tile;

    open spec fn view(&self) -> Tile {
        Tile {
            x: self.transform.x as int,
            y: self.transform.y as int,
            z: self.transform.z as int,
            width: self.rectangle.width as int,
            height: self.rectangle.height as int,
            rotated: self.transform.quarter_turn,
        }
    }
}

/// The tiles of a path, in walking order.
pub open spec fn tiles_of(path: Seq<PathSegmentRecord>) -> Seq<Tile> {
    Seq::new(path.len(), |i: int| path[i]@)
}

impl PathSegmentRecord {
    /// The identity of the segment, for a pedometer's set.
    pub fn identity(&self) -> (id: u64)
        ensures
            id == self@.identity(),
    {
        let x: u64 = (self.transform.x as i64 + 0x8000_0000) as u64;
        let y: u64 = (self.transform.y as i64 + 0x8000_0000) as u64;
        x * 0x1_0000_0000 + y
    }

    /// Whether the grid point `(x, y)` lies on the segment, edges included.
    pub fn contains(&self, x: i64, y: i64) -> (inside: bool)
        ensures
            inside == self@.contains(x as int, y as int),
    {
        let half_width: i64 = (self.rectangle.width / 2) as i64;
        let half_height: i64 = (self.rectangle.height / 2) as i64;
        let cx: i64 = self.transform.x as i64;
        let cy: i64 = self.transform.y as i64;
        crate::components::shapes::rectangle::point_in_rect(
            x,
            y,
            cx - half_width,
            cy - half_height,
            cx + half_width,
            cy + half_height,
        )
    }
}

/// A grid point lies on a tile exactly when it is no farther from the centre
/// than half the tile's size along each axis, whether or not the size is
/// even.
pub proof fn lemma_contains_is_exact(t: Tile, x: int, y: int)
    requires
        t.width >= 0,
        t.height >= 0,
    ensures
        t.contains(x, y) <==> (2 * (x - t.x) <= t.width && 2 * (t.x - x) <= t.width && 2 * (y
            - t.y) <= t.height && 2 * (t.y - y) <= t.height),
{
}

/// The ball as a disc of the plane: its centre and its radius.
pub struct Agent {
    pub x: int,
    pub y: int,
    pub z: int,
    pub radius: int,
}

/// The ball: where it is and how large.
#[derive(Debug, Clone, Copy, PartialEq, Eq, Structural)]
pub struct BallRecord {
    pub transform: Transform,
    pub circle: Circle,
}

impl View for BallRecord {
    type V = Agent;

    open spec fn view(&self) -> Agent {
        Agent {
            x: self.transform.x as int,
            y: self.transform.y as int,
            z: self.transform.z as int,
            radius: self.circle.radius as int,
        }
    }
}

/// The camera holder: the view, and where the holder sits.
#[derive(Debug, Clone, Copy, PartialEq, Eq, Structural)]
pub struct VideographerRecord {
    pub videographer: Videographer,
    pub transform: Transform,
}

/// The pedometer as it is saved.
#[derive(Debug, Clone)]
pub struct PedometerRecord {
    pub steps: u64,
    pub visited: HashMap<u64, ()>,
}

impl View for PedometerRecord {
    type V = PedometerView;

    open spec fn view(&self) -> PedometerView {
        PedometerView { steps: self.steps as nat, visited: self.visited@.dom() }
    }
}

impl Default for PedometerRecord {
    fn default() -> (r: PedometerRecord)
        ensures
            r@.steps == 0,
            r@.visited == Set::<u64>::empty(),
    {
        PedometerRecord { steps: 0, visited: HashMap::new() }
    }
}

impl From<Pedometer> for PedometerRecord {
    fn from(pedometer: Pedometer) -> (record: PedometerRecord) {
        PedometerRecord { steps: pedometer.steps, visited: pedometer.visited }
    }
}

impl vstd::std_specs::convert::FromSpecImpl<Pedometer> for PedometerRecord {
    open spec fn obeys_from_spec() -> bool {
        true
    }

    open spec fn from_spec(pedometer: Pedometer) -> PedometerRecord {
        PedometerRecord { steps: pedometer.steps, visited: pedometer.visited }
    }
}

impl From<PedometerRecord> for Pedometer {
    fn from(record: PedometerRecord) -> (pedometer: Pedometer) {
        Pedometer { steps: record.steps, visited: record.visited }
    }
}

impl vstd::std_specs::convert::FromSpecImpl<PedometerRecord> for Pedometer {
    open spec fn obeys_from_spec() -> bool {
        true
    }

    open spec fn from_spec(record: PedometerRecord) -> Pedometer {
        Pedometer { steps: record.steps, visited: record.visited }
    }
}

/// A whole game as it is saved and loaded: the path in walking order, the
/// balls, the camera holder and the pedometer.
#[derive(Debug, Clone)]
pub struct GameRecord {
    pub path_segments: Vec<PathSegmentRecord>,
    pub balls: Vec<BallRecord>,
    pub videographer: VideographerRecord,
    pub pedometer: PedometerRecord,
}

} // verus!
