//! How the program chooses its counter-move.

use vstd::prelude::*;
use crate::random::{get_random_u32, RandomnessUnavailable};
use crate::types::DifficultyLevel;

verus! {

/// A random draw, cut down to the per-turn limit.
pub open spec fn bounded_draw(draw: int, max: int) -> int {
    if draw < max {
        draw
    } else {
        max
    }
}

/// Whether choosing a counter-move takes a random draw: always on `Easy`; on
/// `Hard` only where the pile is beyond reach and already a multiple of
/// `max + 1`, so that no move can force a win.
pub open spec fn consults_randomness(max: int, remain: int, level: DifficultyLevel) -> bool {
    match level {
        DifficultyLevel::Easy => true,
        DifficultyLevel::Hard => max < remain && remain % (max + 1) == 0,
    }
}

/// The number of pebbles the program decides to remove from a pile of
/// `remain`, given the random number `draw`.
///
/// Where a draw is consulted, the choice is the bounded draw, which may be 0.
/// Otherwise the difficulty is `Hard`: a pile within reach is answered with
/// the limit itself, which may be more than is there, and a pile beyond reach
/// with its remainder modulo `max + 1`.
pub open spec fn program_removal(max: int, remain: int, level: DifficultyLevel, draw: int) -> int {
    if consults_randomness(max, remain, level) {
        bounded_draw(draw, max)
    } else if max >= remain {
        max
    } else {
        remain % (max + 1)
    }
}

/// On `Easy` the program removes the smaller of the draw and the limit,
/// whatever the pile: never more than the limit, and nothing if the draw is 0.
pub proof fn lemma_easy_removal_is_bounded_draw(max: int, remain: int, draw: int)
    ensures
        program_removal(max, remain, DifficultyLevel::Easy, draw) == bounded_draw(draw, max),
        bounded_draw(draw, max) <= max,
        bounded_draw(draw, max) <= draw,
        bounded_draw(draw, max) == max || bounded_draw(draw, max) == draw,
{
}

/// Whatever the difficulty, the pile and the draw, the program never decides
/// on more than one move may remove.
pub proof fn lemma_removal_within_limit(max: int, remain: int, level: DifficultyLevel, draw: int)
    requires
        0 <= max,
        0 <= draw,
    ensures
        0 <= program_removal(max, remain, level, draw) <= max,
{
    if !consults_randomness(max, remain, level) && max < remain {
        lemma_remainder_bounds(remain, max + 1);
    }
}

/// Where no draw is consulted, the draw has no say in the choice.
pub proof fn lemma_unconsulted_draw_is_ignored(
    max: int,
    remain: int,
    level: DifficultyLevel,
    draw: int,
    other: int,
)
    requires
        !consults_randomness(max, remain, level),
    ensures
        program_removal(max, remain, level, draw) == program_removal(max, remain, level, other),
{
}

/// The forcing move: on `Hard`, a pile beyond reach that is no multiple of
/// `max + 1` is cut down to the next multiple below it, by a legal move and
/// without a draw.
pub proof fn lemma_forcing_move(max: int, remain: int, draw: int)
    requires
        0 <= max < remain,
        remain % (max + 1) != 0,
    ensures
        !consults_randomness(max, remain, DifficultyLevel::Hard),
        1 <= program_removal(max, remain, DifficultyLevel::Hard, draw) <= max,
        (remain - program_removal(max, remain, DifficultyLevel::Hard, draw)) % (max + 1) == 0,
{
    lemma_remainder_bounds(remain, max + 1);
    lemma_remainder_taken_off(remain, max + 1);
}

/// A remainder is at least 0 and less than the divisor.
proof fn lemma_remainder_bounds(x: int, m: int)
    by (nonlinear_arith)
    requires
        0 < m,
    ensures
        0 <= x % m < m,
{
}

/// Taking the remainder off a number leaves a multiple of the divisor.
proof fn lemma_remainder_taken_off(x: int, m: int)
    by (nonlinear_arith)
    requires
        0 < m,
    ensures
        (x - x % m) % m == 0,
{
}

/// Tells whether choosing a counter-move takes a random draw.
pub fn needs_draw(max_num: u32, remain_num: u32, level: DifficultyLevel) -> (b: bool)
    ensures
        b == consults_randomness(max_num as int, remain_num as int, level),
{
    match level {
        DifficultyLevel::Easy => true,
        DifficultyLevel::Hard => max_num < remain_num && remain_num % (max_num + 1) == 0,
    }
}

/// Chooses the program's removal for a known random number.
pub fn remove_num_for_draw(
    max_num: u32,
    remain_num: u32,
    level: DifficultyLevel,
    draw: u32,
) -> (n: u32)
    ensures
        n == program_removal(max_num as int, remain_num as int, level, draw as int),
        n <= max_num,
{
    if needs_draw(max_num, remain_num, level) {
        if draw < max_num {
            draw
        } else {
            max_num
        }
    } else if max_num >= remain_num {
        max_num
    } else {
        remain_num % (max_num + 1)
    }
}

/// Chooses the program's removal, drawing a random number from the chain
/// where the policy asks for one.
///
/// Where no draw is consulted, none is made: the call cannot fail and gives
/// the choice that `remove_num_for_draw` gives for every draw. Where one is
/// consulted, the result is the choice for the number the chain supplied, or
/// the failure to supply one. Only a deployed program can draw.
pub fn get_program_remove_num(
    max_num: u32,
    remain_num: u32,
    level: DifficultyLevel,
) -> (r: Result<u32, RandomnessUnavailable>)
    ensures
        !consults_randomness(max_num as int, remain_num as int, level) ==> forall|draw: u32|
            r matches Ok(n)
                && n == #[trigger] program_removal(max_num as int, remain_num as int, level, draw as int),
        r matches Ok(n) ==> n <= max_num && exists|draw: u32|
            n == #[trigger] program_removal(max_num as int, remain_num as int, level, draw as int),
        r is Err ==> consults_randomness(max_num as int, remain_num as int, level),
{
    if needs_draw(max_num, remain_num, level) {
        match get_random_u32() {
            Ok(draw) => Ok(remove_num_for_draw(max_num, remain_num, level, draw)),
            Err(e) => Err(e),
        }
    } else {
        Ok(remove_num_for_draw(max_num, remain_num, level, 0))
    }
}

} // verus!
