use vstd::prelude::*;

use crate::components::shapes::circle::Circle;
use crate::components::transform::Transform;
use crate::config::WanderballConfig;
use crate::resources::save::{Agent, BallRecord};

verus! {

/// The ball at the start of a game: at the start of the path, at the ball's
/// own height, with the configured radius.
pub fn initialize_ball(config: &WanderballConfig) -> (ball: BallRecord)
    ensures
        ball@ == (Agent {
            x: config.start_x as int,
            y: config.start_y as int,
            z: config.start_ball_z as int,
            radius: config.ball_radius as int,
        }),
        !ball.transform.quarter_turn,
{
    BallRecord {
        transform: Transform::at(config.start_x, config.start_y, config.start_ball_z),
        circle: Circle::new(config.ball_radius),
    }
}

} // verus!
