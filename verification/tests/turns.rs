use pebbles_game::{DifficultyLevel, GameState, InitError, PebblesEvent, Player};

fn game(difficulty: DifficultyLevel, count: u32, max: u32, remaining: u32) -> GameState {
    GameState {
        pebbles_count: count,
        max_pebbles_per_turn: max,
        pebbles_remaining: remaining,
        difficulty,
        first_player: Player::User,
        winner: None,
    }
}

#[test]
fn initialize_accepts_exactly_a_pile_above_the_limit() {
    for (count, max) in [(1u32, 0u32), (20, 5), (6, 5), (u32::MAX, u32::MAX - 1), (u32::MAX, 0)] {
        let state = GameState::initialize(count, max, DifficultyLevel::Hard).unwrap();
        assert_eq!(state, GameState { winner: None, ..game(DifficultyLevel::Hard, count, max, count) });
        assert_eq!(state.pebbles_remaining, count);
        assert_eq!(state.first_player, Player::User);
        assert_eq!(state.winner, None);
    }
    for (count, max) in [(0u32, 0u32), (5, 5), (5, 6), (0, u32::MAX), (u32::MAX, u32::MAX)] {
        assert_eq!(
            GameState::initialize(count, max, DifficultyLevel::Easy),
            Err(InitError::InvalidParameters)
        );
    }
}

#[test]
fn invalid_turns_leave_the_game_as_it_was() {
    let start = GameState::initialize(20, 5, DifficultyLevel::Easy).unwrap();
    for draw in [0u32, 3, 9] {
        let mut state = start;
        assert_eq!(state.take_turn_with_draw(0, draw), PebblesEvent::CounterTurn(0));
        assert_eq!(state, start);
        assert_eq!(state.take_turn_with_draw(6, draw), PebblesEvent::CounterTurn(6));
        assert_eq!(state, start);
        assert_eq!(state.take_turn_with_draw(u32::MAX, draw), PebblesEvent::CounterTurn(u32::MAX));
        assert_eq!(state, start);
    }
    let mut state = start;
    assert_eq!(state.take_turn(0), Ok(PebblesEvent::CounterTurn(0)));
    assert_eq!(state.take_turn(6), Ok(PebblesEvent::CounterTurn(6)));
    assert_eq!(state.pebbles_remaining, 20);
    assert_eq!(state.winner, None);
}

#[test]
fn a_request_beyond_the_pile_is_turned_away() {
    let start = game(DifficultyLevel::Hard, 20, 5, 3);
    let mut state = start;
    assert_eq!(state.take_turn_with_draw(5, 1), PebblesEvent::CounterTurn(5));
    assert_eq!(state, start);
    assert_eq!(state.take_turn(4), Ok(PebblesEvent::CounterTurn(4)));
    assert_eq!(state, start);
}

#[test]
fn with_no_move_allowed_every_request_is_turned_away() {
    let start = GameState::initialize(4, 0, DifficultyLevel::Easy).unwrap();
    let mut state = start;
    for requested in [0u32, 1, 4, 5] {
        assert_eq!(state.take_turn(requested), Ok(PebblesEvent::CounterTurn(requested)));
        assert_eq!(state, start);
    }
}

#[test]
fn easy_turn_removes_the_request_and_the_bounded_draw() {
    let start = GameState::initialize(20, 5, DifficultyLevel::Easy).unwrap();
    for (draw, left) in [(0u32, 18u32), (1, 17), (4, 14), (5, 13), (6, 13), (u32::MAX, 13)] {
        let mut state = start;
        assert_eq!(state.take_turn_with_draw(2, draw), PebblesEvent::CounterTurn(2));
        assert_eq!(state, GameState { pebbles_remaining: left, ..start });
    }
}

#[test]
fn the_user_wins_by_taking_the_last_pebble() {
    let mut state = game(DifficultyLevel::Easy, 20, 5, 3);
    assert_eq!(state.take_turn(3), Ok(PebblesEvent::Won(Player::User)));
    assert_eq!(state.pebbles_remaining, 0);
    assert_eq!(state.winner, Some(Player::User));
    assert_eq!(state.pebbles_count, 20);
}

#[test]
fn hard_program_forces_the_pile_to_a_multiple() {
    // 11 pebbles, at most 3 a move: the user takes 1 and leaves 10; the
    // program removes 10 mod 4 = 2, whatever the draw.
    for draw in [0u32, 1, 3, 99] {
        let mut state = game(DifficultyLevel::Hard, 11, 3, 11);
        assert_eq!(state.take_turn_with_draw(1, draw), PebblesEvent::CounterTurn(1));
        assert_eq!(state.pebbles_remaining, 8);
    }
    let mut state = game(DifficultyLevel::Hard, 11, 3, 11);
    assert_eq!(state.take_turn(1), Ok(PebblesEvent::CounterTurn(1)));
    assert_eq!(state.pebbles_remaining, 8);
    assert_eq!(state.winner, None);
}

#[test]
fn hard_program_takes_all_that_is_within_reach() {
    // 6 pebbles, at most 5 a move: the user takes 2 and leaves 4; the
    // program removes all 4 and wins.
    let mut state = game(DifficultyLevel::Hard, 20, 5, 6);
    assert_eq!(state.take_turn(2), Ok(PebblesEvent::Won(Player::Program)));
    assert_eq!(state.pebbles_remaining, 0);
    assert_eq!(state.winner, Some(Player::Program));
}

#[test]
fn hard_program_falls_back_on_the_draw_in_a_lost_position() {
    // 10 pebbles, at most 3 a move: the user takes 2 and leaves 8, a
    // multiple of 4.
    for (draw, left) in [(0u32, 8u32), (1, 7), (2, 6), (3, 5), (4, 5), (u32::MAX, 5)] {
        let mut state = game(DifficultyLevel::Hard, 10, 3, 10);
        assert_eq!(state.take_turn_with_draw(2, draw), PebblesEvent::CounterTurn(2));
        assert_eq!(state.pebbles_remaining, left);
    }
}

#[test]
fn easy_program_never_takes_more_than_is_there() {
    // 20 pebbles at the start, 4 on the pile, at most 5 a move: the user
    // takes 1 and leaves 3.
    for (draw, left, event) in [
        (0u32, 3u32, PebblesEvent::CounterTurn(1)),
        (2, 1, PebblesEvent::CounterTurn(1)),
        (3, 0, PebblesEvent::Won(Player::Program)),
        (4, 0, PebblesEvent::Won(Player::Program)),
        (5, 0, PebblesEvent::Won(Player::Program)),
        (u32::MAX, 0, PebblesEvent::Won(Player::Program)),
    ] {
        let mut state = game(DifficultyLevel::Easy, 20, 5, 4);
        assert_eq!(state.take_turn_with_draw(1, draw), event);
        assert_eq!(state.pebbles_remaining, left);
        assert_eq!(state.winner.is_some(), left == 0);
    }
}

#[test]
fn the_largest_piles_do_not_overflow() {
    let mut state = GameState::initialize(u32::MAX, u32::MAX - 1, DifficultyLevel::Hard).unwrap();
    assert_eq!(state.take_turn(1), Ok(PebblesEvent::Won(Player::Program)));
    assert_eq!(state.pebbles_remaining, 0);

    let mut state = GameState::initialize(u32::MAX, u32::MAX - 2, DifficultyLevel::Hard).unwrap();
    // The user takes 1 and leaves MAX - 1, which is MAX - 2 + 1: a lost
    // position, so the draw decides.
    assert_eq!(state.take_turn_with_draw(1, 7), PebblesEvent::CounterTurn(1));
    assert_eq!(state.pebbles_remaining, u32::MAX - 8);

    let mut state = GameState::initialize(u32::MAX, 1, DifficultyLevel::Easy).unwrap();
    assert_eq!(state.take_turn_with_draw(1, u32::MAX), PebblesEvent::CounterTurn(1));
    assert_eq!(state.pebbles_remaining, u32::MAX - 2);
}

#[test]
fn give_up_clears_the_pile_for_the_program() {
    let mut state = GameState::initialize(20, 5, DifficultyLevel::Easy).unwrap();
    assert_eq!(state.give_up(), PebblesEvent::Won(Player::Program));
    assert_eq!(
        state,
        GameState { pebbles_remaining: 0, winner: Some(Player::Program), ..game(DifficultyLevel::Easy, 20, 5, 0) }
    );
    // Conceding again changes nothing more.
    assert_eq!(state.give_up(), PebblesEvent::Won(Player::Program));
    assert_eq!(state.pebbles_remaining, 0);
    assert_eq!(state.winner, Some(Player::Program));
}

#[test]
fn give_up_overrides_a_win_of_the_user() {
    let mut state = game(DifficultyLevel::Easy, 20, 5, 2);
    assert_eq!(state.take_turn(2), Ok(PebblesEvent::Won(Player::User)));
    assert_eq!(state.give_up(), PebblesEvent::Won(Player::Program));
    assert_eq!(state.winner, Some(Player::Program));
}

#[test]
fn restart_resets_every_field_and_names_the_program() {
    let mut state = GameState::initialize(20, 5, DifficultyLevel::Easy).unwrap();
    state.take_turn_with_draw(3, 4);
    assert_eq!(state.restart(30, 7, DifficultyLevel::Hard), PebblesEvent::Won(Player::Program));
    assert_eq!(
        state,
        GameState {
            pebbles_count: 30,
            max_pebbles_per_turn: 7,
            pebbles_remaining: 30,
            difficulty: DifficultyLevel::Hard,
            first_player: Player::User,
            winner: Some(Player::Program),
        }
    );
}

#[test]
fn a_restarted_game_can_be_played() {
    let mut state = GameState::initialize(20, 5, DifficultyLevel::Easy).unwrap();
    state.restart(5, 3, DifficultyLevel::Hard);
    // The user takes 1 and leaves 4, a multiple of 4: the draw decides.
    assert_eq!(state.take_turn_with_draw(1, 1), PebblesEvent::CounterTurn(1));
    assert_eq!(state.pebbles_remaining, 3);
    assert_eq!(state.take_turn(3), Ok(PebblesEvent::Won(Player::User)));
    assert_eq!(state.winner, Some(Player::User));
}

#[test]
fn the_pile_never_grows_over_a_run_of_turns() {
    let mut state = GameState::initialize(40, 6, DifficultyLevel::Easy).unwrap();
    let turns: [(u32, u32); 10] =
        [(3, 0), (0, 5), (7, 1), (6, 9), (1, 2), (2, 0), (6, 6), (5, 3), (4, 4), (6, 1)];
    let mut before = state.pebbles_remaining;
    for (requested, draw) in turns {
        state.take_turn_with_draw(requested, draw);
        assert!(state.pebbles_remaining <= before);
        assert_eq!(state.winner.is_some(), state.pebbles_remaining == 0);
        before = state.pebbles_remaining;
    }
    assert_eq!(state.pebbles_remaining, 0);
}

#[test]
fn the_winner_is_declared_once_and_stays() {
    let mut state = GameState::initialize(7, 3, DifficultyLevel::Hard).unwrap();
    // The user takes 3 and leaves 4: a lost position, the program draws 1.
    assert_eq!(state.take_turn_with_draw(3, 1), PebblesEvent::CounterTurn(3));
    assert_eq!(state.winner, None);
    // The user takes 3 and wins.
    assert_eq!(state.take_turn_with_draw(3, 1), PebblesEvent::Won(Player::User));
    let decided = state;
    assert_eq!(decided.winner, Some(Player::User));
    for (requested, draw) in [(1u32, 0u32), (3, 3), (0, 1), (4, 2), (2, u32::MAX)] {
        assert_eq!(state.take_turn_with_draw(requested, draw), PebblesEvent::CounterTurn(requested));
        assert_eq!(state, decided);
    }
    assert_eq!(state.take_turn(1), Ok(PebblesEvent::CounterTurn(1)));
    assert_eq!(state, decided);
}

/// Plays every request the user could make, turn after turn, and returns how
/// many games were played to the end.
fn explore_without_draws(state: GameState) -> u32 {
    if state.pebbles_remaining == 0 {
        assert_eq!(state.winner, Some(Player::Program));
        return 1;
    }
    let mut games = 0;
    for requested in 0..=state.max_pebbles_per_turn + 1 {
        let mut next = state;
        // No draw is consulted in these positions, so none is drawn.
        let event = next.take_turn(requested).unwrap();
        assert_ne!(event, PebblesEvent::Won(Player::User));
        assert_ne!(next.winner, Some(Player::User));
        assert_eq!(next.pebbles_remaining % (next.max_pebbles_per_turn + 1), 0);
        if next != state {
            games += explore_without_draws(next);
        }
    }
    games
}

#[test]
fn hard_program_cannot_be_beaten_from_a_multiple() {
    // Every way to play 8 pebbles down by 1, 2 or 3 against answers that
    // restore a multiple of 4: 3 first moves, then 3 second moves.
    assert_eq!(explore_without_draws(game(DifficultyLevel::Hard, 8, 3, 8)), 9);
    assert_eq!(explore_without_draws(game(DifficultyLevel::Hard, 12, 5, 12)), 25);
    assert_eq!(explore_without_draws(game(DifficultyLevel::Hard, 20, 3, 20)), 243);
    assert_eq!(explore_without_draws(game(DifficultyLevel::Hard, 7, 0, 7)), 0);
}
