//! What holds of every game, however the turns and the draws fall.

use vstd::prelude::*;
use crate::policy::lemma_forcing_move;
use crate::types::{DifficultyLevel, GameState, PebblesEvent, Player};

verus! {

/// The state after a run of turns, each given as the amount the user asks
/// for and the random number at the policy's disposal.
pub open spec fn after_turns(state: GameState, turns: Seq<(u32, u32)>) -> GameState
    decreases turns.len(),
{
    if turns.len() == 0 {
        state
    } else {
        after_turns(state, turns.drop_last()).after_turn(turns.last().0, turns.last().1)
    }
}

/// A new game is consistent: its pile is not empty and nobody has won.
pub proof fn lemma_fresh_game_is_consistent(
    pebbles_count: u32,
    max_pebbles_per_turn: u32,
    difficulty: DifficultyLevel,
)
    requires
        pebbles_count > max_pebbles_per_turn,
    ensures
        GameState::fresh(pebbles_count, max_pebbles_per_turn, difficulty).is_consistent(),
        GameState::fresh(pebbles_count, max_pebbles_per_turn, difficulty).winner is None,
{
}

/// A turn changes the pile and the winner only: the parameters of the game
/// stay as they are.
pub proof fn lemma_turn_keeps_parameters(state: GameState, requested: u32, draw: u32)
    ensures
        state.after_turn(requested, draw).pebbles_count == state.pebbles_count,
        state.after_turn(requested, draw).max_pebbles_per_turn == state.max_pebbles_per_turn,
        state.after_turn(requested, draw).difficulty == state.difficulty,
        state.after_turn(requested, draw).first_player == state.first_player,
{
}

/// A request for nothing, or for more than one move may remove, leaves the
/// game as it was and is echoed.
pub proof fn lemma_invalid_turn_changes_nothing(state: GameState, requested: u32, draw: u32)
    requires
        requested == 0 || requested > state.max_pebbles_per_turn,
    ensures
        state.after_turn(requested, draw) == state,
        state.turn_event(requested, draw) == PebblesEvent::CounterTurn(requested),
{
}

/// A turn answers with a win exactly when it has emptied the pile, and then
/// names the side it has recorded as winner; else it echoes the request.
pub proof fn lemma_turn_event_tells_the_outcome(state: GameState, requested: u32, draw: u32)
    ensures
        state.rejects(requested)
            ==> state.turn_event(requested, draw) == PebblesEvent::CounterTurn(requested),
        !state.rejects(requested) && state.after_turn(requested, draw).pebbles_remaining == 0
            ==> (state.after_turn(requested, draw).winner matches Some(side)
                && state.turn_event(requested, draw) == PebblesEvent::Won(side)),
        !state.rejects(requested) && state.after_turn(requested, draw).pebbles_remaining != 0
            ==> state.after_turn(requested, draw).winner == state.winner
                && state.turn_event(requested, draw) == PebblesEvent::CounterTurn(requested),
{
}

/// No turn puts pebbles back: the pile after a turn is at most the pile
/// before it, and smaller by at least the request where that is accepted.
pub proof fn lemma_turn_never_refills(state: GameState, requested: u32, draw: u32)
    ensures
        state.after_turn(requested, draw).pebbles_remaining <= state.pebbles_remaining,
        !state.rejects(requested)
            ==> state.after_turn(requested, draw).pebbles_remaining
                <= state.pebbles_remaining - requested,
{
}

/// Over any run of turns the pile never grows.
pub proof fn lemma_pile_never_grows(state: GameState, turns: Seq<(u32, u32)>)
    ensures
        after_turns(state, turns).pebbles_remaining <= state.pebbles_remaining,
    decreases turns.len(),
{
    if turns.len() > 0 {
        lemma_pile_never_grows(state, turns.drop_last());
        lemma_turn_never_refills(
            after_turns(state, turns.drop_last()),
            turns.last().0,
            turns.last().1,
        );
    }
}

/// A turn keeps a consistent game consistent: it names a winner exactly when
/// it empties the pile.
pub proof fn lemma_turn_keeps_consistency(state: GameState, requested: u32, draw: u32)
    requires
        state.is_consistent(),
    ensures
        state.after_turn(requested, draw).is_consistent(),
{
}

/// Any run of turns keeps a consistent game consistent.
pub proof fn lemma_turns_keep_consistency(state: GameState, turns: Seq<(u32, u32)>)
    requires
        state.is_consistent(),
    ensures
        after_turns(state, turns).is_consistent(),
    decreases turns.len(),
{
    if turns.len() > 0 {
        lemma_turns_keep_consistency(state, turns.drop_last());
        lemma_turn_keeps_consistency(
            after_turns(state, turns.drop_last()),
            turns.last().0,
            turns.last().1,
        );
    }
}

/// No run of turns takes a winner back, whatever the state.
pub proof fn lemma_turns_keep_a_winner(state: GameState, turns: Seq<(u32, u32)>)
    requires
        state.winner is Some,
    ensures
        after_turns(state, turns).winner is Some,
    decreases turns.len(),
{
    if turns.len() > 0 {
        lemma_turns_keep_a_winner(state, turns.drop_last());
    }
}

/// Once a game has a winner and an empty pile, no run of turns changes it.
pub proof fn lemma_decided_game_is_frozen(state: GameState, turns: Seq<(u32, u32)>)
    requires
        state.winner is Some,
        state.pebbles_remaining == 0,
    ensures
        after_turns(state, turns) == state,
    decreases turns.len(),
{
    if turns.len() > 0 {
        lemma_decided_game_is_frozen(state, turns.drop_last());
    }
}

/// Playing one run of turns and then another is playing them in one go.
pub proof fn lemma_turns_compose(
    state: GameState,
    earlier: Seq<(u32, u32)>,
    later: Seq<(u32, u32)>,
)
    ensures
        after_turns(state, earlier + later) == after_turns(after_turns(state, earlier), later),
    decreases later.len(),
{
    if later.len() == 0 {
        assert(earlier + later =~= earlier);
    } else {
        assert((earlier + later).drop_last() =~= earlier + later.drop_last());
        assert((earlier + later).last() == later.last());
        lemma_turns_compose(state, earlier, later.drop_last());
    }
}

/// The winner is declared once. In a game that names a winner only when its
/// pile is empty, as every game does from its set-up until a restart, a run
/// of turns that has produced a winner is the end of it: no further turn
/// changes the state, so the winner neither changes nor disappears.
pub proof fn lemma_winner_declared_once(
    state: GameState,
    earlier: Seq<(u32, u32)>,
    later: Seq<(u32, u32)>,
)
    requires
        state.winner is Some ==> state.pebbles_remaining == 0,
        after_turns(state, earlier).winner is Some,
    ensures
        after_turns(state, earlier + later) == after_turns(state, earlier),
{
    lemma_turns_compose(state, earlier, later);
    lemma_winner_only_on_empty_pile(state, earlier);
    lemma_decided_game_is_frozen(after_turns(state, earlier), later);
}

/// A game that names a winner only when its pile is empty still does so
/// after any run of turns.
pub proof fn lemma_winner_only_on_empty_pile(state: GameState, turns: Seq<(u32, u32)>)
    requires
        state.winner is Some ==> state.pebbles_remaining == 0,
    ensures
        after_turns(state, turns).winner is Some
            ==> after_turns(state, turns).pebbles_remaining == 0,
    decreases turns.len(),
{
    if turns.len() > 0 {
        lemma_winner_only_on_empty_pile(state, turns.drop_last());
    }
}

/// On `Hard`, a pile that the user's move leaves within the program's reach
/// is taken whole: the program wins, and no draw is consulted.
pub proof fn lemma_hard_program_takes_a_pile_within_reach(
    state: GameState,
    requested: u32,
    draw: u32,
)
    requires
        state.difficulty == DifficultyLevel::Hard,
        !state.rejects(requested),
        0 < state.pebbles_remaining - requested <= state.max_pebbles_per_turn,
    ensures
        !state.turn_consults_randomness(requested),
        state.after_turn(requested, draw).pebbles_remaining == 0,
        state.after_turn(requested, draw).winner == Some(Player::Program),
        state.turn_event(requested, draw) == PebblesEvent::Won(Player::Program),
{
}

/// On `Hard`, a pile that the user's move leaves beyond the program's reach,
/// and no multiple of the limit plus one, is cut down by its remainder to the
/// multiple below it; the game goes on, and no draw is consulted.
pub proof fn lemma_hard_program_leaves_a_multiple(state: GameState, requested: u32, draw: u32)
    requires
        state.difficulty == DifficultyLevel::Hard,
        !state.rejects(requested),
        state.pebbles_remaining - requested > state.max_pebbles_per_turn,
        (state.pebbles_remaining - requested) % (state.max_pebbles_per_turn + 1) != 0,
    ensures
        !state.turn_consults_randomness(requested),
        state.after_turn(requested, draw).pebbles_remaining == state.pebbles_remaining - requested
            - (state.pebbles_remaining - requested) % (state.max_pebbles_per_turn + 1),
        state.after_turn(requested, draw).pebbles_remaining as int % (state.max_pebbles_per_turn
            + 1) == 0,
        state.after_turn(requested, draw).pebbles_remaining > 0,
        state.after_turn(requested, draw).winner == state.winner,
        state.turn_event(requested, draw) == PebblesEvent::CounterTurn(requested),
{
    let left = state.pebbles_remaining - requested;
    lemma_forcing_move(state.max_pebbles_per_turn as int, left, draw as int);
    lemma_multiple_below_is_positive(left, state.max_pebbles_per_turn + 1);
}

/// Whether the user is to move on a pile that is a multiple of the limit
/// plus one, against the `Hard` program, and has not won: the position from
/// which the program cannot be beaten.
pub open spec fn program_holds_the_game(state: GameState) -> bool {
    &&& state.difficulty == DifficultyLevel::Hard
    &&& state.pebbles_remaining as int % (state.max_pebbles_per_turn + 1) == 0
    &&& state.winner != Some(Player::User)
}

/// A turn from such a position leads to such a position again, without a
/// draw: whatever the user takes, the program restores the multiple or takes
/// the rest.
pub proof fn lemma_program_keeps_the_game(state: GameState, requested: u32, draw: u32)
    requires
        program_holds_the_game(state),
    ensures
        program_holds_the_game(state.after_turn(requested, draw)),
        !state.turn_consults_randomness(requested),
{
    if !state.rejects(requested) {
        let m = state.max_pebbles_per_turn + 1;
        let left = state.pebbles_remaining - requested;
        lemma_short_of_a_multiple(state.pebbles_remaining as int, requested as int, m);
        if left > state.max_pebbles_per_turn {
            lemma_hard_program_leaves_a_multiple(state, requested, draw);
        }
    }
}

/// The `Hard` program cannot be beaten from a multiple of the limit plus one:
/// whatever the user asks for, turn after turn, and whatever the draws, the
/// position is kept and the user never wins.
pub proof fn lemma_hard_program_cannot_be_beaten(state: GameState, turns: Seq<(u32, u32)>)
    requires
        program_holds_the_game(state),
    ensures
        program_holds_the_game(after_turns(state, turns)),
        after_turns(state, turns).winner != Some(Player::User),
    decreases turns.len(),
{
    if turns.len() > 0 {
        lemma_hard_program_cannot_be_beaten(state, turns.drop_last());
        lemma_program_keeps_the_game(
            after_turns(state, turns.drop_last()),
            turns.last().0,
            turns.last().1,
        );
    }
}

/// Taking the remainder off a number that is at least the divisor leaves
/// something.
proof fn lemma_multiple_below_is_positive(x: int, m: int)
    by (nonlinear_arith)
    requires
        0 < m <= x,
    ensures
        x - x % m > 0,
{
}

/// Taking less than the divisor, and at least 1, off a multiple of it that
/// can afford it leaves something that is no multiple.
proof fn lemma_short_of_a_multiple(x: int, r: int, m: int)
    by (nonlinear_arith)
    requires
        0 < m,
        x % m == 0,
        1 <= r < m,
        r <= x,
    ensures
        x - r > 0,
        (x - r) % m != 0,
{
}

/// Conceding leaves a consistent game, won by the program, whatever the
/// state was; it changes nothing where the program had already won on an
/// empty pile.
pub proof fn lemma_concession_settles_the_game(state: GameState)
    ensures
        state.conceded().is_consistent(),
        state.conceded().winner == Some(Player::Program),
        state.conceded().pebbles_remaining == 0,
        state.winner == Some(Player::Program) && state.pebbles_remaining == 0
            ==> state.conceded() == state,
{
}

} // verus!
