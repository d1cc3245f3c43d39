//! The meter drop-rate formula and its arithmetic facts.
//!
//! Probabilities are fixed-point: `PROB_ONE` stands for a chance of 1. The
//! boosted chance of a drop while the meter holds `accrued_score` out of
//! `max_score` is `base_chance * (1 + 2 * (accrued_score / max_score) / 100)`,
//! evaluated exactly in integer arithmetic, except that a full meter
//! (`accrued_score >= max_score`) guarantees the drop outright.

use vstd::arithmetic::div_mod::{
    lemma_div_by_multiple, lemma_div_is_ordered, lemma_div_multiples_vanish_fancy,
};
use vstd::arithmetic::mul::{
    lemma_mul_is_commutative, lemma_mul_is_distributive_add, lemma_mul_left_inequality,
    lemma_mul_upper_bound,
};
use vstd::prelude::*;

verus! {

/// Fixed-point representation of probability 1; a chance `c` in `[0, 1]` is
/// carried as the integer `c * PROB_ONE`.
pub const PROB_ONE: u64 = 1_000_000_000;

/// Numerator of the meter boost multiplier: the boost is
/// `2 * (accrued / max) / 100` of the base chance.
pub const METER_BOOST_NUM: u64 = 2;

/// Denominator of the meter boost multiplier.
pub const METER_BOOST_DEN: u64 = 100;

/// Score value of one run before mode scaling; the S mode credits only a
/// fraction of it.
pub const BASE_RUN_SCORE: u64 = 270;

/// Numerator of the partial score credit granted by an S-tier run.
pub const S_RUN_CREDIT_NUM: u64 = 7;

/// Denominator of the partial score credit granted by an S-tier run.
pub const S_RUN_CREDIT_DEN: u64 = 10;

/// Per-attempt meter accrual in the S game mode: 70% of a full run's score.
pub const METER_S_INCREMENT: u64 = BASE_RUN_SCORE * S_RUN_CREDIT_NUM / S_RUN_CREDIT_DEN;

/// Per-attempt meter accrual in the S+ game mode, credited in full.
pub const METER_S_PLUS_INCREMENT: u64 = 300;

/// Number of simulated attempts behind each estimated statistic.
pub const NUM_TRIALS: u64 = 10_000_000;

/// Upper bound accepted for a loot entry's `max_score`, so that the running
/// meter score can never overflow while accruing.
pub const MAX_METER_SCORE: u64 = 0x1000_0000_0000_0000;

/// The meter-boosted drop chance as a mathematical integer: `PROB_ONE` once
/// the meter is full, otherwise `base * (100 * max + 2 * score) / (100 * max)`,
/// which is `base * (1 + 2 * (score / max) / 100)` cleared of fractions.
pub open spec fn effective_chance_spec(base: int, score: int, max: int) -> int {
    if score >= max {
        PROB_ONE as int
    } else {
        base * ((METER_BOOST_DEN as int) * max + (METER_BOOST_NUM as int) * score)
            / ((METER_BOOST_DEN as int) * max)
    }
}

/// The meter-boosted drop chance of one attempt, in fixed point.
///
/// A full meter guarantees the drop; below the threshold the base chance is
/// boosted in proportion to the meter fill fraction. The boosted value is not
/// clamped back to `PROB_ONE`: a draw below `PROB_ONE` always succeeds against
/// it, which matches treating the boosted value directly as a trial chance.
pub fn effective_chance(base_chance: u64, accrued_score: u64, max_score: u64) -> (r: u64)
    requires
        base_chance <= PROB_ONE,
        0 < max_score,
    ensures
        r == effective_chance_spec(base_chance as int, accrued_score as int, max_score as int),
        r >= base_chance,
        r <= 2 * PROB_ONE,
        accrued_score >= max_score ==> r == PROB_ONE,
        accrued_score == 0 ==> r == base_chance,
{
    if accrued_score >= max_score {
        PROB_ONE
    } else {
        proof {
            lemma_mul_upper_bound(METER_BOOST_DEN as int, 100, max_score as int, u64::MAX as int);
            lemma_mul_upper_bound(METER_BOOST_NUM as int, 2, accrued_score as int, u64::MAX as int);
        }
        let den: u128 = (METER_BOOST_DEN as u128) * (max_score as u128);
        let boost: u128 = (METER_BOOST_NUM as u128) * (accrued_score as u128);
        proof {
            lemma_mul_upper_bound(
                base_chance as int,
                PROB_ONE as int,
                den as int + boost as int,
                102 * (u64::MAX as int),
            );
        }
        let num: u128 = (base_chance as u128) * (den + boost);
        let q: u128 = num / den;
        proof {
            let b = base_chance as int;
            let s = accrued_score as int;
            let m = max_score as int;
            let d = den as int;
            let x = num as int;
            assert(d == 100 * m);
            assert(x == b * (d + 2 * s));
            // Upper bound: the boost factor is below 102/100, so q < 2 * PROB_ONE.
            lemma_mul_upper_bound(b, 1_000_000_000, d + 2 * s, 102 * m);
            lemma_div_is_ordered(x, 2_000_000_000 * d, d);
            lemma_div_by_multiple(2_000_000_000, d);
            // Lower bound: the boost never lowers the chance, so q >= base.
            lemma_mul_left_inequality_nonneg(b, d, d + 2 * s);
            lemma_div_is_ordered(b * d, x, d);
            lemma_div_by_multiple(b, d);
        }
        q as u64
    }
}

/// The meter can only help: with a fixed base chance and threshold, a higher
/// accrued score never lowers the effective chance. The one exception is left
/// out by the hypothesis: an already boosted chance above `PROB_ONE` steps
/// back down to exactly `PROB_ONE` the moment the meter fills.
pub proof fn lemma_effective_chance_monotonic(base: int, s1: int, s2: int, max: int)
    requires
        0 <= base,
        0 < max,
        0 <= s1 <= s2,
        effective_chance_spec(base, s1, max) <= PROB_ONE || s2 < max,
    ensures
        effective_chance_spec(base, s1, max) <= effective_chance_spec(base, s2, max),
{
    let d = (METER_BOOST_DEN as int) * max;
    if s1 >= max {
        // Both sides are the guaranteed drop.
    } else if s2 >= max {
        // The right side is PROB_ONE and the hypothesis bounds the left side.
    } else {
        lemma_mul_left_inequality_nonneg(base, d + 2 * s1, d + 2 * s2);
        lemma_div_is_ordered(base * (d + 2 * s1), base * (d + 2 * s2), d);
    }
}

/// While the accrued score is so small (relative to the threshold) that the
/// boost rounds to nothing, the effective chance is exactly the base chance.
pub proof fn lemma_effective_chance_unboosted(base: int, score: int, max: int)
    requires
        0 <= base,
        0 <= score < max,
        (METER_BOOST_NUM as int) * score * base < (METER_BOOST_DEN as int) * max,
    ensures
        effective_chance_spec(base, score, max) == base,
{
    let d = (METER_BOOST_DEN as int) * max;
    let boost = (METER_BOOST_NUM as int) * score;
    assert(base * (d + boost) == base * d + base * boost) by {
        lemma_mul_is_distributive_add(base, d, boost);
    }
    assert(base * boost == boost * base) by {
        lemma_mul_is_commutative(base, boost);
    }
    assert(base * d == d * base) by {
        lemma_mul_is_commutative(base, d);
    }
    lemma_div_multiples_vanish_fancy(base, boost * base, d);
}

/// Multiplication by a nonnegative factor keeps the order of the other factor.
proof fn lemma_mul_left_inequality_nonneg(x: int, y: int, z: int)
    requires
        0 <= x,
        y <= z,
    ensures
        x * y <= x * z,
{
    if x > 0 {
        lemma_mul_left_inequality(x, y, z);
    }
}

} // verus!
