//! The difficulty curve: how much harder the game is at a given score.

use vstd::prelude::*;
use vstd::arithmetic::div_mod::{lemma_div_is_ordered_by_denominator, lemma_fundamental_div_mod_converse};
use crate::fixed::{ONE, quotient, ratio};

verus! {

/// What each point of score adds to the multiplier: 0.05.
pub const MULTIPLIER_STEP: i64 = 690_690;

/// The score from which the multiplier stays at its cap.
pub const RAMP_END: u32 = 20;

/// The score from which the gap stays at its least height.
pub const GAP_FLOOR_SCORE: u32 = 7;

/// The cap of the multiplier: 2.
pub const MAX_MULTIPLIER: i64 = 2 * ONE;

/// Gap height at multiplier 1: 200 pixels.
pub const BASE_GAP: i64 = 200 * ONE;

/// The least gap height: 150 pixels.
pub const MIN_GAP: i64 = 150 * ONE;

/// The difficulty multiplier at `score`: `min(1 + 0.05 * score, 2)`.
pub open spec fn multiplier(score: nat) -> int {
    let ramp = ONE + score * MULTIPLIER_STEP;
    if ramp <= MAX_MULTIPLIER {
        ramp
    } else {
        MAX_MULTIPLIER as int
    }
}

/// The height of the gap of a pipe spawned at `score`:
/// `max(200 / multiplier, 150)`. [`lemma_gap_exact`] gives its values.
pub open spec fn gap_height(score: nat) -> int {
    let gap = quotient(BASE_GAP as int, multiplier(score));
    if gap >= MIN_GAP {
        gap
    } else {
        MIN_GAP as int
    }
}

/// Computes [`multiplier`].
pub fn difficulty_multiplier(score: u32) -> (m: i64)
    ensures
        m == multiplier(score as nat),
        ONE <= m <= MAX_MULTIPLIER,
        score >= RAMP_END ==> m == MAX_MULTIPLIER,
{
    let ramp: i64 = ONE + (score as i64) * MULTIPLIER_STEP;
    if ramp <= MAX_MULTIPLIER {
        ramp
    } else {
        MAX_MULTIPLIER
    }
}

/// Computes [`gap_height`].
pub fn current_gap_height(score: u32) -> (gap: i64)
    ensures
        gap == gap_height(score as nat),
        MIN_GAP <= gap <= BASE_GAP,
        score < GAP_FLOOR_SCORE ==> gap * (RAMP_END + score) == BASE_GAP * RAMP_END,
        score >= GAP_FLOOR_SCORE ==> gap == MIN_GAP,
{
    let gap: i64 = ratio(BASE_GAP, difficulty_multiplier(score));
    proof {
        lemma_gap_bounds(score as nat);
        lemma_gap_exact(score as nat);
    }
    if gap >= MIN_GAP {
        gap
    } else {
        MIN_GAP
    }
}

/// The step is a twentieth of 1, so the ramp reaches 2 at score 20.
pub proof fn lemma_step_is_a_twentieth()
    ensures
        RAMP_END * MULTIPLIER_STEP == ONE,
        multiplier(RAMP_END as nat) == ONE + RAMP_END * MULTIPLIER_STEP,
{
}

/// The multiplier lies between 1 and 2, and is 2 from score 20 on.
pub proof fn lemma_multiplier_bounds(score: nat)
    ensures
        ONE <= multiplier(score) <= MAX_MULTIPLIER,
        score >= RAMP_END ==> multiplier(score) == MAX_MULTIPLIER,
{
}

/// The multiplier never falls as the score rises.
pub proof fn lemma_multiplier_monotone(lower: nat, higher: nat)
    requires
        lower <= higher,
    ensures
        multiplier(lower) <= multiplier(higher),
{
}

/// The gap is never lower than 150 pixels nor higher than 200.
pub proof fn lemma_gap_bounds(score: nat)
    ensures
        MIN_GAP <= gap_height(score) <= BASE_GAP,
{
    let m = multiplier(score);
    assert(BASE_GAP * ONE / m <= BASE_GAP) by (nonlinear_arith)
        requires
            m >= ONE,
    ;
}

/// The gap never grows as the score rises.
pub proof fn lemma_gap_monotone(lower: nat, higher: nat)
    requires
        lower <= higher,
    ensures
        gap_height(lower) >= gap_height(higher),
{
    lemma_div_is_ordered_by_denominator(BASE_GAP * ONE, multiplier(lower), multiplier(higher));
}

/// A gap that gives 200 pixels when multiplied by the multiplier is the
/// gap at that score, if it is no lower than the least gap.
proof fn lemma_gap_is(score: nat, gap: int)
    requires
        score < RAMP_END,
        gap * (RAMP_END + score) == BASE_GAP * RAMP_END,
        gap >= MIN_GAP,
    ensures
        gap_height(score) == gap,
        gap * multiplier(score) == BASE_GAP * ONE,
{
    let m = multiplier(score);
    let divisor: int = RAMP_END + score;
    let whole: int = BASE_GAP * ONE;
    assert(gap * m == whole) by (nonlinear_arith)
        requires
            m == MULTIPLIER_STEP * divisor,
            gap * divisor == BASE_GAP * RAMP_END,
            whole == BASE_GAP * ONE,
            ONE == MULTIPLIER_STEP * RAMP_END,
    ;
    lemma_fundamental_div_mod_converse(whole, m, gap, 0);
}

/// No rounding enters the gap: below score 7 it is exactly 200 pixels
/// divided by the multiplier, which is `4000 / (20 + score)` pixels, and
/// from score 7 on it is the least gap. Half a gap is a whole number too.
pub proof fn lemma_gap_exact(score: nat)
    ensures
        score < GAP_FLOOR_SCORE ==> gap_height(score) * (RAMP_END + score) == BASE_GAP * RAMP_END,
        score < GAP_FLOOR_SCORE ==> gap_height(score) * multiplier(score) == BASE_GAP * ONE,
        score >= GAP_FLOOR_SCORE ==> gap_height(score) == MIN_GAP,
        gap_height(score) % 2 == 0,
{
    let whole: int = BASE_GAP * RAMP_END;
    if score == 0 {
        lemma_gap_is(score, whole / 20);
    } else if score == 1 {
        lemma_gap_is(score, whole / 21);
    } else if score == 2 {
        lemma_gap_is(score, whole / 22);
    } else if score == 3 {
        lemma_gap_is(score, whole / 23);
    } else if score == 4 {
        lemma_gap_is(score, whole / 24);
    } else if score == 5 {
        lemma_gap_is(score, whole / 25);
    } else if score == 6 {
        lemma_gap_is(score, whole / 26);
    } else {
        let m = multiplier(score);
        assert(BASE_GAP * ONE / m < MIN_GAP) by (nonlinear_arith)
            requires
                BASE_GAP * ONE < MIN_GAP * m,
                m > 0,
        ;
    }
}

} // verus!
