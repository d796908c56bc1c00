//! The four operations on a game: setting it up, playing a turn, conceding
//! and starting over.

use vstd::prelude::*;
use crate::policy::{
    consults_randomness, get_program_remove_num, program_removal, remove_num_for_draw,
};
use crate::random::RandomnessUnavailable;
use crate::types::{DifficultyLevel, GameState, InitError, PebblesEvent, Player};

verus! {

impl GameState {
    /// The state in which every game starts: a full pile, the user to move
    /// first, and no winner.
    pub open spec fn fresh(
        pebbles_count: u32,
        max_pebbles_per_turn: u32,
        difficulty: DifficultyLevel,
    ) -> GameState {
        GameState {
            pebbles_count,
            max_pebbles_per_turn,
            pebbles_remaining: pebbles_count,
            difficulty,
            first_player: Player::User,
            winner: None,
        }
    }

    /// The state right after a restart: a fresh game, except that the program
    /// is already recorded as winner.
    pub open spec fn restarted(
        pebbles_count: u32,
        max_pebbles_per_turn: u32,
        difficulty: DifficultyLevel,
    ) -> GameState {
        GameState {
            winner: Some(Player::Program),
            ..GameState::fresh(pebbles_count, max_pebbles_per_turn, difficulty)
        }
    }

    /// The state after the user has conceded.
    pub open spec fn conceded(self) -> GameState {
        GameState { pebbles_remaining: 0, winner: Some(Player::Program), ..self }
    }

    /// Whether the record agrees with the pile: a winner is named exactly
    /// when no pebble is left.
    pub open spec fn is_consistent(self) -> bool {
        self.winner is Some <==> self.pebbles_remaining == 0
    }

    /// Whether a request is turned away: it asks for nothing, for more than
    /// one move may remove, or for more than the pile holds.
    pub open spec fn rejects(self, requested: u32) -> bool {
        ||| requested == 0
        ||| requested > self.max_pebbles_per_turn
        ||| requested > self.pebbles_remaining
    }

    /// Whether resolving the turn takes a random draw: the request is
    /// accepted, it leaves pebbles behind, and the program's policy consults
    /// a draw on what is left.
    pub open spec fn turn_consults_randomness(self, requested: u32) -> bool {
        &&& !self.rejects(requested)
        &&& self.pebbles_remaining > requested
        &&& consults_randomness(
            self.max_pebbles_per_turn as int,
            self.pebbles_remaining - requested,
            self.difficulty,
        )
    }

    /// What the program takes from the `left` pebbles when it has decided on
    /// `chosen`: never more than is there.
    pub open spec fn taken_of(left: int, chosen: int) -> int {
        if chosen < left {
            chosen
        } else {
            left
        }
    }

    /// The pile after an accepted request and the program's answer to it.
    pub open spec fn pile_after_turn(self, requested: u32, draw: u32) -> int {
        let left = self.pebbles_remaining - requested;
        left - Self::taken_of(
            left,
            program_removal(self.max_pebbles_per_turn as int, left, self.difficulty, draw as int),
        )
    }

    /// The state after a turn in which the user asks for `requested` pebbles
    /// and the program's policy is handed the random number `draw`.
    ///
    /// A request that is turned away changes nothing. An accepted request
    /// that empties the pile makes the user the winner, and the program does
    /// not move. Otherwise the program answers, and is the winner if its
    /// answer empties the pile.
    pub open spec fn after_turn(self, requested: u32, draw: u32) -> GameState {
        if self.rejects(requested) {
            self
        } else if self.pebbles_remaining == requested {
            GameState { pebbles_remaining: 0, winner: Some(Player::User), ..self }
        } else if self.pile_after_turn(requested, draw) == 0 {
            GameState { pebbles_remaining: 0, winner: Some(Player::Program), ..self }
        } else {
            GameState { pebbles_remaining: self.pile_after_turn(requested, draw) as u32, ..self }
        }
    }

    /// The answer to that turn: the winner, if the turn has made one; else
    /// the request echoed, whether it was accepted or turned away.
    pub open spec fn turn_event(self, requested: u32, draw: u32) -> PebblesEvent {
        if self.rejects(requested) {
            PebblesEvent::CounterTurn(requested)
        } else if self.pebbles_remaining == requested {
            PebblesEvent::Won(Player::User)
        } else if self.pile_after_turn(requested, draw) == 0 {
            PebblesEvent::Won(Player::Program)
        } else {
            PebblesEvent::CounterTurn(requested)
        }
    }

    /// Sets up a game, provided the pile is larger than the per-turn limit.
    pub fn initialize(
        pebbles_count: u32,
        max_pebbles_per_turn: u32,
        difficulty: DifficultyLevel,
    ) -> (r: Result<GameState, InitError>)
        ensures
            pebbles_count > max_pebbles_per_turn ==> (r matches Ok(state)
                && state == GameState::fresh(pebbles_count, max_pebbles_per_turn, difficulty)),
            pebbles_count <= max_pebbles_per_turn ==> (r matches Err(e)
                && e == InitError::InvalidParameters),
    {
        if pebbles_count <= max_pebbles_per_turn {
            return Err(InitError::InvalidParameters);
        }
        Ok(
            GameState {
                pebbles_count,
                max_pebbles_per_turn,
                pebbles_remaining: pebbles_count,
                difficulty,
                first_player: Player::User,
                winner: None,
            },
        )
    }

    /// What an accepted request leaves on the pile; `None` where the request
    /// is turned away.
    fn pile_after_user(&self, requested: u32) -> (left: Option<u32>)
        ensures
            self.rejects(requested) <==> left is None,
            left matches Some(n) ==> n == self.pebbles_remaining - requested,
    {
        if requested == 0 || requested > self.max_pebbles_per_turn
            || requested > self.pebbles_remaining
        {
            None
        } else {
            Some(self.pebbles_remaining - requested)
        }
    }

    /// Records that the user has taken the last pebble.
    fn user_takes_last(&mut self) -> (ev: PebblesEvent)
        ensures
            *final(self) == (GameState {
                pebbles_remaining: 0,
                winner: Some(Player::User),
                ..*old(self)
            }),
            ev == PebblesEvent::Won(Player::User),
    {
        self.pebbles_remaining = 0;
        self.winner = Some(Player::User);
        PebblesEvent::Won(Player::User)
    }

    /// Makes the program's move on the `left` pebbles that the user's move
    /// has spared, and says how the turn ended.
    fn counter_move(&mut self, requested: u32, left: u32, chosen: u32) -> (ev: PebblesEvent)
        ensures
            chosen >= left ==> *final(self) == (GameState {
                pebbles_remaining: 0,
                winner: Some(Player::Program),
                ..*old(self)
            }) && ev == PebblesEvent::Won(Player::Program),
            chosen < left ==> *final(self) == (GameState {
                pebbles_remaining: (left - chosen) as u32,
                ..*old(self)
            }) && ev == PebblesEvent::CounterTurn(requested),
    {
        let taken: u32 = if chosen < left {
            chosen
        } else {
            left
        };
        self.pebbles_remaining = left - taken;
        if self.pebbles_remaining == 0 {
            self.winner = Some(Player::Program);
            PebblesEvent::Won(Player::Program)
        } else {
            PebblesEvent::CounterTurn(requested)
        }
    }

    /// Resolves a turn with the random number `draw` at the policy's disposal.
    ///
    /// A request that is turned away changes nothing and is echoed. An
    /// accepted one is taken off the pile; if that empties it the user has
    /// won. Otherwise the program answers, taking what its policy chooses but
    /// no more than is there, and wins if that empties the pile.
    pub fn take_turn_with_draw(&mut self, requested: u32, draw: u32) -> (ev: PebblesEvent)
        ensures
            *final(self) == old(self).after_turn(requested, draw),
            ev == old(self).turn_event(requested, draw),
            old(self).rejects(requested) ==> *final(self) == *old(self),
            final(self).pebbles_remaining <= old(self).pebbles_remaining,
    {
        match self.pile_after_user(requested) {
            None => PebblesEvent::CounterTurn(requested),
            Some(left) => {
                if left == 0 {
                    self.user_takes_last()
                } else {
                    let chosen = remove_num_for_draw(
                        self.max_pebbles_per_turn,
                        left,
                        self.difficulty,
                        draw,
                    );
                    self.counter_move(requested, left, chosen)
                }
            },
        }
    }

    /// Resolves a turn, drawing a random number from the chain if the
    /// program's policy consults one.
    ///
    /// Where no draw is consulted, none is made: the turn cannot fail and its
    /// outcome is the one `take_turn_with_draw` gives for every draw. Where
    /// one is consulted, the outcome is that for the number the chain
    /// supplied; if the chain supplies none, the turn fails and the state is
    /// left untouched. Only a deployed program can draw.
    pub fn take_turn(&mut self, requested: u32) -> (r: Result<PebblesEvent, RandomnessUnavailable>)
        ensures
            !old(self).turn_consults_randomness(requested) ==> forall|draw: u32|
                r matches Ok(ev)
                    && ev == old(self).turn_event(requested, draw)
                    && *final(self) == #[trigger] old(self).after_turn(requested, draw),
            r matches Ok(ev) ==> exists|draw: u32|
                ev == old(self).turn_event(requested, draw)
                    && *final(self) == #[trigger] old(self).after_turn(requested, draw),
            r is Err ==> *final(self) == *old(self)
                && old(self).turn_consults_randomness(requested),
            old(self).rejects(requested) ==> *final(self) == *old(self),
            final(self).pebbles_remaining <= old(self).pebbles_remaining,
    {
        let ghost before = *self;
        match self.pile_after_user(requested) {
            None => {
                assert(*self == before.after_turn(requested, 0));
                Ok(PebblesEvent::CounterTurn(requested))
            },
            Some(left) => {
                if left == 0 {
                    let ev = self.user_takes_last();
                    assert(*self == before.after_turn(requested, 0));
                    Ok(ev)
                } else {
                    match get_program_remove_num(self.max_pebbles_per_turn, left, self.difficulty) {
                        Ok(chosen) => {
                            let ev = self.counter_move(requested, left, chosen);
                            proof {
                                let draw = choose|draw: u32|
                                    chosen == #[trigger] program_removal(
                                        before.max_pebbles_per_turn as int,
                                        left as int,
                                        before.difficulty,
                                        draw as int,
                                    );
                                assert(*self == before.after_turn(requested, draw));
                            }
                            Ok(ev)
                        },
                        Err(e) => Err(e),
                    }
                }
            },
        }
    }

    /// The user concedes: the pile is cleared and the program has won,
    /// whatever the state was.
    pub fn give_up(&mut self) -> (ev: PebblesEvent)
        ensures
            *final(self) == old(self).conceded(),
            ev == PebblesEvent::Won(Player::Program),
    {
        self.winner = Some(Player::Program);
        self.pebbles_remaining = 0;
        PebblesEvent::Won(Player::Program)
    }

    /// Starts over with new parameters, which are taken as they are, and
    /// records the program as winner at once.
    pub fn restart(
        &mut self,
        pebbles_count: u32,
        max_pebbles_per_turn: u32,
        difficulty: DifficultyLevel,
    ) -> (ev: PebblesEvent)
        ensures
            *final(self) == GameState::restarted(pebbles_count, max_pebbles_per_turn, difficulty),
            ev == PebblesEvent::Won(Player::Program),
    {
        self.difficulty = difficulty;
        self.pebbles_count = pebbles_count;
        self.max_pebbles_per_turn = max_pebbles_per_turn;
        self.pebbles_remaining = pebbles_count;
        self.first_player = Player::User;
        self.winner = Some(Player::Program);
        PebblesEvent::Won(Player::Program)
    }
}

} // verus!
