//! Rules engine of the pebbles game: a user and the program take turns
//! removing pebbles from one pile, at most a fixed number per turn, and
//! whoever removes the last pebble wins.
//!
//! [`GameState`] carries the four operations on a game and [`GameEngine`]
//! holds the one game of a session and dispatches actions to it. The
//! program's moves follow the policy in [`policy`], which on some positions
//! consults a random number. Every operation that may consult one comes in
//! two forms: one that is handed the number (`take_turn_with_draw`,
//! `handle_with_draw`, `remove_num_for_draw`) and is specified exactly, and
//! one that draws it from the chain when needed (`take_turn`, `handle`,
//! `get_program_remove_num`) and is specified for whatever number comes back.
//! [`laws`] states what holds of every game.

pub mod engine;
pub mod game;
pub mod laws;
pub mod policy;
pub mod random;
pub mod types;

pub use engine::GameEngine;
pub use policy::{get_program_remove_num, needs_draw, remove_num_for_draw};
pub use random::{seed_to_u32, RandomnessUnavailable};
pub use types::{
    DifficultyLevel, EngineError, GameState, InitError, PebblesAction, PebblesEvent, PebblesInit,
    Player,
};
