use rand::rngs::StdRng;
use vstd::prelude::*;

use crate::components::ball::initialize_ball;
use crate::components::path::{cursor_after, initialize_path, tile_at, walk, Direction};
use crate::components::transform::Transform;
use crate::components::videographer::{initialize_videographer, Viewport, CAMERA_Z};
use crate::config::WanderballConfig;
use crate::resources::save::{edge_adjacent, tiles_of, Agent, GameRecord, PedometerRecord};
use crate::states::event::{StateEvent, Transition};

verus! {

/// Whether `game` is a game as it is newly set up from `config`: its path
/// is a walk of the configured number of segments from the start, each
/// segment and the next with a stretch of edge in common and no area; its
/// one ball lies at the start; its view has the configured size and its
/// lower left corner at the origin; its pedometer has counted nothing.
pub open spec fn is_new_game(game: GameRecord, config: WanderballConfig) -> bool {
    &&& game.path_segments@.len() == config.segment_count()
    &&& exists|draws: Seq<Direction>|
        draws.len() + 1 == config.segment_count() && tiles_of(game.path_segments@)
            == #[trigger] walk(config, draws)
    &&& game.path_segments@[0]@ == tile_at(
        cursor_after(config, Seq::empty()),
        config.start_path_z as int,
        config.path_segment_width as int,
        config.path_segment_height as int,
    )
    &&& forall|i: int|
        0 <= i < game.path_segments@.len() - 1 ==> edge_adjacent(
            #[trigger] game.path_segments@[i]@,
            game.path_segments@[i + 1]@,
        )
    &&& game.balls@.len() == 1
    &&& game.balls@[0]@ == (Agent {
        x: config.start_x as int,
        y: config.start_y as int,
        z: config.start_ball_z as int,
        radius: config.ball_radius as int,
    })
    &&& !game.balls@[0].transform.quarter_turn
    &&& game.videographer.videographer@ == (Viewport {
        x: config.view_width as int / 2,
        y: config.view_height as int / 2,
        width: config.view_width as int,
        height: config.view_height as int,
    })
    &&& game.videographer.transform == (Transform {
        x: game.videographer.videographer.view_x,
        y: game.videographer.videographer.view_y,
        z: CAMERA_Z,
        quarter_turn: false,
    })
    &&& game.pedometer@.steps == 0
    &&& game.pedometer@.visited == Set::<u64>::empty()
}

/// The running game.
#[derive(Debug, Clone, Copy, PartialEq, Eq, Structural, Default)]
pub struct Wanderball;

impl Wanderball {
    /// Answers an event: closing the window quits, the escape key opens the
    /// menu, nothing else matters to the running game.
    pub fn handle_event(&self, event: StateEvent) -> (transition: Transition)
        ensures
            transition == match event {
                StateEvent::CloseRequested => Transition::Quit,
                StateEvent::EscapePressed => Transition::OpenMenu,
                _ => Transition::Stay,
            },
    {
        match event {
            StateEvent::CloseRequested => Transition::Quit,
            StateEvent::EscapePressed => Transition::OpenMenu,
            _ => Transition::Stay,
        }
    }

    /// What a game starts with. A saved game is taken up exactly as it was
    /// saved. Without one a new game is set up: a path laid by a random
    /// walk, one ball at its start, the view of the configured size and a
    /// pedometer that has counted nothing.
    pub fn on_start(
        &self,
        saved: Option<GameRecord>,
        config: &WanderballConfig,
        rng: &mut StdRng,
    ) -> (game: GameRecord)
        requires
            saved is None ==> config.path_is_valid(),
        ensures
            saved matches Some(record) ==> game == record,
            saved is None ==> is_new_game(game, *config),
    {
        match saved {
            Some(record) => record,
            None => {
                let path_segments = initialize_path(config, rng);
                let mut balls = Vec::new();
                balls.push(initialize_ball(config));
                GameRecord {
                    path_segments,
                    balls,
                    videographer: initialize_videographer(config),
                    pedometer: PedometerRecord::default(),
                }
            },
        }
    }
}

} // verus!
