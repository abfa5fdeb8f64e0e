//! A walking path of rectangular tiles, a ball that may only move where the
//! path lies, a pedometer that counts the tiles the ball has entered, and a
//! camera holder that pages and zooms to keep the ball in view.
//!
//! All positions are whole numbers of grid units (`i32`), all sizes are
//! whole, non-negative numbers of grid units (`u32`), and the geometry tests
//! take `i64` scalars so that a caller can hand them sums and differences of
//! positions and sizes without overflow. How many grid units make up one unit
//! of the embedding application is for that application to choose.
//!
//! * `components` holds what the game is made of and how it is set up: the
//!   shapes, the path and the walk that lays it, the ball, the view and the
//!   pedometer.
//! * `systems` holds what happens every tick: the ball moves, the view
//!   follows, the segments are marked and hidden.
//! * `resources` holds the game as it is saved and loaded, together with the
//!   rectangles of the plane that the contracts speak of.
//! * `states` holds what the screens of the game answer to an event.
//! * `config`, `side` and `util` hold the configuration, the sides of a
//!   rectangle and further tests on points.

pub mod components;
pub mod config;
pub mod resources;
pub mod side;
pub mod states;
pub mod systems;
pub mod util;
