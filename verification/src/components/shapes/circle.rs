use vstd::prelude::*;

verus! {

/// The size of a disc, in grid units.
#[derive(Debug, Clone, Copy, PartialEq, Eq, Structural)]
pub struct Circle {
    pub radius: u32,
}

impl Circle {
    pub fn new(radius: u32) -> (c: Circle)
        ensures
            c.radius == radius,
    {
        Circle { radius }
    }
}

impl Default for Circle {
    fn default() -> (c: Circle)
        ensures
            c.radius == 0,
    {
        Circle { radius: 0 }
    }
}

} // verus!
