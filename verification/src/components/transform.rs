use vstd::prelude::*;

verus! {

/// Where an entity sits: its centre in grid units, and whether it is turned
/// a quarter turn about the axis that points at the viewer.
#[derive(Debug, Clone, Copy, PartialEq, Eq, Structural)]
pub struct Transform {
    pub x: i32,
    pub y: i32,
    pub z: i32,
    pub quarter_turn: bool,
}

impl Transform {
    /// An unturned placement at `(x, y, z)`.
    pub fn at(x: i32, y: i32, z: i32) -> (t: Transform)
        ensures
            t == (Transform { x, y, z, quarter_turn: false }),
    {
        Transform { x, y, z, quarter_turn: false }
    }
}

impl Default for Transform {
    fn default() -> (t: Transform)
        ensures
            t == (Transform { x: 0, y: 0, z: 0, quarter_turn: false }),
    {
        Transform { x: 0, y: 0, z: 0, quarter_turn: false }
    }
}

} // verus!
