use vstd::prelude::*;

verus! {

/// One of the four sides of an axis-aligned rectangle.
#[derive(Debug, Clone, Copy, PartialEq, Eq, Structural)]
pub enum Side {
    Left,
    Bottom,
    Right,
    Top,
}

} // verus!
