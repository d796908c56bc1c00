//! The values that travel between a caller and the engine.

use vstd::prelude::*;

verus! {

/// How the program picks its counter-move.
#[derive(Clone, Copy, Debug, PartialEq, Eq, Structural)]
pub enum DifficultyLevel {
    /// A bounded random amount.
    Easy,
    /// The forcing move where one exists, a bounded random amount otherwise.
    Hard,
}

/// One of the two sides of a game.
#[derive(Clone, Copy, Debug, PartialEq, Eq, Structural)]
pub enum Player {
    User,
    Program,
}

/// The whole state of one game.
#[derive(Clone, Copy, Debug, PartialEq, Eq, Structural)]
pub struct GameState {
    /// Size of the pile when the game started.
    pub pebbles_count: u32,
    /// Most pebbles that one move may remove.
    pub max_pebbles_per_turn: u32,
    /// Pebbles still on the pile.
    pub pebbles_remaining: u32,
    /// Policy of the program's counter-moves.
    pub difficulty: DifficultyLevel,
    /// Side that moves first; always the user.
    pub first_player: Player,
    /// Side that has won, once the game is decided.
    pub winner: Option<Player>,
}

/// The parameters of a new game.
#[derive(Clone, Copy, Debug, PartialEq, Eq, Structural)]
pub struct PebblesInit {
    pub difficulty: DifficultyLevel,
    pub pebbles_count: u32,
    pub max_pebbles_per_turn: u32,
}

/// What a caller may ask of a game in progress.
#[derive(Clone, Copy, Debug, PartialEq, Eq, Structural)]
pub enum PebblesAction {
    /// The user removes this many pebbles.
    Turn(u32),
    /// The user concedes.
    GiveUp,
    /// The game starts over with new parameters.
    Restart { difficulty: DifficultyLevel, pebbles_count: u32, max_pebbles_per_turn: u32 },
}

/// What the engine answers.
#[derive(Clone, Copy, Debug, PartialEq, Eq, Structural)]
pub enum PebblesEvent {
    /// The game goes on; carries the amount the user asked to remove.
    CounterTurn(u32),
    /// The game is decided.
    Won(Player),
}

/// Why a game could not be set up.
#[derive(Clone, Copy, Debug, PartialEq, Eq, Structural)]
pub enum InitError {
    /// The pile is not larger than the per-turn limit.
    InvalidParameters,
}

/// Why the engine could not carry out an action.
#[derive(Clone, Copy, Debug, PartialEq, Eq, Structural)]
pub enum EngineError {
    /// No game has been set up yet.
    NotInitialized,
    /// The program's move needed a random number and none could be had.
    RandomnessUnavailable,
}

} // verus!
