//! The engine: at most one game, and the actions that drive it.

use vstd::prelude::*;
use crate::types::{
    EngineError, GameState, InitError, PebblesAction, PebblesEvent, PebblesInit, Player,
};

verus! {

/// Holds the one game of a session, once it has been set up.
pub struct GameEngine {
    game: Option<GameState>,
}

impl View for GameEngine {
    type V = Option<GameState>;

    /// The game, if one has been set up.
    closed spec fn view(&self) -> Option<GameState> {
        self.game
    }
}

/// The state that `action` leads to from `state`, with the random number
/// `draw` at the policy's disposal.
pub open spec fn after_action(state: GameState, action: PebblesAction, draw: u32) -> GameState {
    match action {
        PebblesAction::Turn(requested) => state.after_turn(requested, draw),
        PebblesAction::GiveUp => state.conceded(),
        PebblesAction::Restart { difficulty, pebbles_count, max_pebbles_per_turn } => {
            GameState::restarted(pebbles_count, max_pebbles_per_turn, difficulty)
        },
    }
}

/// The answer to `action` in `state`: a turn's own answer, and the program's
/// win for a concession or a restart.
pub open spec fn action_event(state: GameState, action: PebblesAction, draw: u32) -> PebblesEvent {
    match action {
        PebblesAction::Turn(requested) => state.turn_event(requested, draw),
        PebblesAction::GiveUp => PebblesEvent::Won(Player::Program),
        PebblesAction::Restart { .. } => PebblesEvent::Won(Player::Program),
    }
}

/// Whether carrying out `action` in `state` takes a random draw: only a turn
/// can.
pub open spec fn action_consults_randomness(state: GameState, action: PebblesAction) -> bool {
    action matches PebblesAction::Turn(requested) && state.turn_consults_randomness(requested)
}

impl GameEngine {
    /// An engine without a game.
    pub fn new() -> (engine: GameEngine)
        ensures
            engine@ is None,
    {
        GameEngine { game: None }
    }

    /// Sets up the game and returns its first state. Parameters that are
    /// refused leave the engine as it was.
    pub fn init(&mut self, params: PebblesInit) -> (r: Result<GameState, InitError>)
        ensures
            params.pebbles_count > params.max_pebbles_per_turn ==> (r matches Ok(state)
                && state == GameState::fresh(
                    params.pebbles_count,
                    params.max_pebbles_per_turn,
                    params.difficulty,
                )
                && final(self)@ == Some(state)),
            params.pebbles_count <= params.max_pebbles_per_turn ==> (r matches Err(e)
                && e == InitError::InvalidParameters
                && final(self)@ == old(self)@),
    {
        match GameState::initialize(
            params.pebbles_count,
            params.max_pebbles_per_turn,
            params.difficulty,
        ) {
            Ok(state) => {
                self.game = Some(state);
                Ok(state)
            },
            Err(e) => Err(e),
        }
    }

    /// Carries out `action` on the game, with the random number `draw` at the
    /// policy's disposal. Without a game nothing happens.
    pub fn handle_with_draw(
        &mut self,
        action: PebblesAction,
        draw: u32,
    ) -> (r: Result<PebblesEvent, EngineError>)
        ensures
            old(self)@ is None ==> final(self)@ is None
                && (r matches Err(e) && e == EngineError::NotInitialized),
            old(self)@ matches Some(state) ==> final(self)@ == Some(
                after_action(state, action, draw),
            ) && (r matches Ok(ev) && ev == action_event(state, action, draw)),
    {
        match self.game {
            None => Err(EngineError::NotInitialized),
            Some(mut state) => {
                let ev = match action {
                    PebblesAction::Turn(requested) => state.take_turn_with_draw(requested, draw),
                    PebblesAction::GiveUp => state.give_up(),
                    PebblesAction::Restart { difficulty, pebbles_count, max_pebbles_per_turn } => {
                        state.restart(pebbles_count, max_pebbles_per_turn, difficulty)
                    },
                };
                self.game = Some(state);
                Ok(ev)
            },
        }
    }

    /// Carries out `action` on the game, drawing a random number from the
    /// chain if the program's move consults one.
    ///
    /// Without a game nothing happens. Where no draw is consulted, none is
    /// made, and the outcome is the one `handle_with_draw` gives for every
    /// draw. Where one is consulted, the outcome is that for the number the
    /// chain supplied; if it supplies none, the action fails and the game is
    /// left untouched. Only a deployed program can draw.
    pub fn handle(&mut self, action: PebblesAction) -> (r: Result<PebblesEvent, EngineError>)
        ensures
            old(self)@ is None ==> final(self)@ is None
                && (r matches Err(e) && e == EngineError::NotInitialized),
            old(self)@ matches Some(state) ==> {
                &&& !action_consults_randomness(state, action) ==> forall|draw: u32|
                    r matches Ok(ev)
                        && ev == action_event(state, action, draw)
                        && final(self)@ == Some(#[trigger] after_action(state, action, draw))
                &&& r matches Ok(ev) ==> exists|draw: u32|
                    ev == action_event(state, action, draw)
                        && final(self)@ == Some(#[trigger] after_action(state, action, draw))
                &&& r matches Err(e) ==> e == EngineError::RandomnessUnavailable
                    && final(self)@ == old(self)@
                    && action_consults_randomness(state, action)
            },
    {
        match self.game {
            None => Err(EngineError::NotInitialized),
            Some(mut state) => {
                let ghost before = state;
                match action {
                    PebblesAction::Turn(requested) => {
                        match state.take_turn(requested) {
                            Ok(ev) => {
                                proof {
                                    let draw = choose|draw: u32|
                                        state == #[trigger] before.after_turn(requested, draw)
                                            && ev == before.turn_event(requested, draw);
                                    assert(state == after_action(before, action, draw));
                                }
                                self.game = Some(state);
                                Ok(ev)
                            },
                            Err(_) => Err(EngineError::RandomnessUnavailable),
                        }
                    },
                    PebblesAction::GiveUp => {
                        let ev = state.give_up();
                        assert(state == after_action(before, action, 0));
                        self.game = Some(state);
                        Ok(ev)
                    },
                    PebblesAction::Restart { difficulty, pebbles_count, max_pebbles_per_turn } => {
                        let ev = state.restart(pebbles_count, max_pebbles_per_turn, difficulty);
                        assert(state == after_action(before, action, 0));
                        self.game = Some(state);
                        Ok(ev)
                    },
                }
            },
        }
    }

    /// The current state of the game. Asking changes nothing.
    pub fn state(&self) -> (r: Result<GameState, EngineError>)
        ensures
            self@ matches Some(state) ==> (r matches Ok(s) && s == state),
            self@ is None ==> (r matches Err(e) && e == EngineError::NotInitialized),
    {
        match self.game {
            Some(state) => Ok(state),
            None => Err(EngineError::NotInitialized),
        }
    }
}

} // verus!
