use vstd::prelude::*;

use crate::components::wanderdata::Coordinate;
use crate::resources::save::BallRecord;

verus! {

/// Keeps the shown position of the ball up to date.
#[derive(Debug, Clone, Copy, PartialEq, Eq, Structural)]
pub struct CoordinateSystem;

impl CoordinateSystem {
    /// Sets the shown position to where the ball is.
    pub fn run(&self, ball: &BallRecord, coordinates: &mut Coordinate)
        ensures
            final(coordinates).x == ball.transform.x,
            final(coordinates).y == ball.transform.y,
    {
        coordinates.x = ball.transform.x;
        coordinates.y = ball.transform.y;
    }
}

} // verus!
