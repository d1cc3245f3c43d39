//! The Monte Carlo trial engine and its orchestration over a catalog.
//!
//! All four experiments of a loot entry share one parameterized trial loop,
//! differing only in the per-attempt meter accrual and in whether a failed
//! attempt grants a second, unboosted reroll draw.

use crate::catalog::{
    catalog_valid, floor_matches, result_matches_entry, FloorLoot, LootEntry, SimulatedFloor,
    SimulatedLoot,
};
use crate::meter::{
    effective_chance, METER_BOOST_DEN, METER_BOOST_NUM, METER_S_INCREMENT,
    METER_S_PLUS_INCREMENT, MAX_METER_SCORE, NUM_TRIALS, PROB_ONE,
};
use crate::rng::draw_prob;
use vstd::arithmetic::div_mod::{
    lemma_div_is_ordered, lemma_div_multiples_vanish, lemma_div_nonincreasing, lemma_div_of0,
};
use vstd::arithmetic::mul::{
    lemma_mul_basics, lemma_mul_inequality, lemma_mul_is_commutative,
    lemma_mul_is_distributive_add, lemma_mul_left_inequality, lemma_mul_upper_bound,
};
use vstd::prelude::*;

verus! {

/// Raw outcome of one experiment: how many of the attempts yielded the item,
/// and how many attempts failed their first draw and so consumed a reroll.
pub struct TrialStats {
    pub successes: u64,
    pub rerolls: u64,
}

/// Runs one experiment of `trials` simulated attempts.
///
/// Each attempt first accrues `increment` meter score, then draws against the
/// meter-boosted chance. A success resets the meter; a failure keeps it. With
/// `use_reroll`, a failed attempt draws a second time against the unboosted
/// base chance, and a successful reroll counts as a success and also resets
/// the meter.
///
/// The counts are random, so the contract states what holds of every
/// outcome: at most one success per attempt, rerolls only when enabled and
/// exactly one per first-draw failure, certainty when the base chance is
/// certainty, and no success at all when a zero base chance cannot fill the
/// meter within the attempt sequence.
pub fn run_experiment(
    rng: &mut fastrand::Rng,
    base_chance: u64,
    max_score: u64,
    increment: u64,
    use_reroll: bool,
    trials: u64,
) -> (r: TrialStats)
    requires
        base_chance <= PROB_ONE,
        0 < max_score <= MAX_METER_SCORE,
        increment <= METER_S_PLUS_INCREMENT,
        trials <= NUM_TRIALS,
    ensures
        r.successes <= trials,
        r.rerolls <= trials,
        !use_reroll ==> r.rerolls == 0,
        use_reroll ==> r.successes + r.rerolls >= trials,
        base_chance == PROB_ONE ==> r.successes == trials && r.rerolls == 0,
        base_chance == 0 && trials * increment < max_score ==> r.successes == 0 && (use_reroll
            ==> r.rerolls == trials),
{
    let mut successes: u64 = 0;
    let mut rerolls: u64 = 0;
    let mut score: u64 = 0;
    let mut i: u64 = 0;
    while i < trials
        invariant
            i <= trials,
            successes <= i,
            rerolls <= i,
            score < max_score,
            base_chance <= PROB_ONE,
            0 < max_score <= MAX_METER_SCORE,
            increment <= METER_S_PLUS_INCREMENT,
            trials <= NUM_TRIALS,
            !use_reroll ==> rerolls == 0,
            use_reroll ==> successes + rerolls >= i,
            base_chance == PROB_ONE ==> successes == i && rerolls == 0,
            base_chance == 0 && trials * increment < max_score ==> successes == 0 && score == i
                * increment && (use_reroll ==> rerolls == i),
        decreases trials - i,
    {
        proof {
            if base_chance == 0 && (trials as int) * (increment as int) < max_score {
                // The meter never resets, so after this attempt it holds
                // (i + 1) * increment, still short of the threshold.
                let inc = increment as int;
                let steps = i as int;
                lemma_mul_is_distributive_add(inc, steps, 1);
                lemma_mul_basics(inc);
                lemma_mul_is_commutative(inc, steps);
                lemma_mul_is_commutative(inc, steps + 1);
                lemma_mul_inequality(steps + 1, trials as int, inc);
            }
        }
        score = score + increment;
        let chance = effective_chance(base_chance, score, max_score);
        proof {
            if base_chance == 0 && (trials as int) * (increment as int) < max_score {
                // A zero base chance below the threshold boosts to zero.
                let m = max_score as int;
                let d = (METER_BOOST_DEN as int) * m;
                let s = score as int;
                assert(d == 100 * m);
                lemma_mul_basics(d + (METER_BOOST_NUM as int) * s);
                lemma_div_of0(d);
            }
        }
        let first_draw = draw_prob(rng);
        if first_draw < chance {
            successes = successes + 1;
            score = 0;
        } else {
            // The draw is below PROB_ONE, so a full meter (chance PROB_ONE)
            // could not have failed: the meter is still filling.
            assert(score < max_score);
            if use_reroll {
                rerolls = rerolls + 1;
                let reroll_draw = draw_prob(rng);
                if reroll_draw < base_chance {
                    successes = successes + 1;
                    score = 0;
                }
            }
        }
        i = i + 1;
    }
    TrialStats { successes, rerolls }
}

/// The fixed-point ratio `numerator / denominator`, i.e.
/// `numerator * PROB_ONE / denominator` rounded down. A ratio of a part to
/// its whole therefore lands in `[0, PROB_ONE]`, exactly `PROB_ONE` when the
/// part is the whole.
pub fn fixed_ratio(numerator: u64, denominator: u64) -> (r: u64)
    requires
        0 < denominator,
        numerator <= NUM_TRIALS,
    ensures
        r == numerator * PROB_ONE / (denominator as int),
        numerator <= denominator ==> r <= PROB_ONE,
        numerator == denominator ==> r == PROB_ONE,
        numerator == 0 ==> r == 0,
{
    proof {
        lemma_mul_upper_bound(numerator as int, 10_000_000, PROB_ONE as int, 1_000_000_000);
    }
    let scaled: u128 = (numerator as u128) * (PROB_ONE as u128);
    let q: u128 = scaled / (denominator as u128);
    proof {
        let n = numerator as int;
        let d = denominator as int;
        let p = PROB_ONE as int;
        lemma_div_nonincreasing(n * p, d);
        if n == 0 {
            lemma_mul_basics(p);
            lemma_div_of0(d);
        }
        if n <= d {
            lemma_mul_inequality(n, d, p);
            lemma_div_is_ordered(n * p, d * p, d);
            lemma_div_multiples_vanish(p, d);
        }
    }
    q as u64
}

/// The reroll-per-drop statistic: rerolls consumed per successful drop, or
/// `None` when nothing dropped and the ratio is undefined.
fn reroll_amount(stats: &TrialStats) -> (r: Option<u64>)
    requires
        stats.rerolls <= NUM_TRIALS,
    ensures
        stats.successes == 0 <==> r is None,
        stats.successes > 0 ==> r == Some(
            (stats.rerolls * PROB_ONE / (stats.successes as int)) as u64,
        ),
        stats.rerolls == 0 && stats.successes > 0 ==> r == Some(0u64),
{
    if stats.successes == 0 {
        None
    } else {
        Some(fixed_ratio(stats.rerolls, stats.successes))
    }
}

/// Runs the experiments of one loot entry and assembles its result record:
/// the two meter-only chances, the base reroll chance, and the two metered
/// reroll chances, each reroll chance with its rerolls-per-drop ratio.
///
/// `trials` is the sample size of each experiment; a full run uses
/// `NUM_TRIALS`. The record always carries the entry's identifying fields,
/// and a base chance of `PROB_ONE` pins every chance to `PROB_ONE` and every
/// reroll ratio to zero.
pub fn simulate_entry(rng: &mut fastrand::Rng, entry: &LootEntry, trials: u64) -> (r:
    SimulatedLoot)
    requires
        entry.valid(),
        0 < trials <= NUM_TRIALS,
    ensures
        result_matches_entry(r, *entry),
        entry.base_chance == PROB_ONE ==> {
            &&& r.meter_s_chance == PROB_ONE
            &&& r.meter_s_plus_chance == PROB_ONE
            &&& r.base_reroll_chance == PROB_ONE
            &&& r.meter_s_reroll_chance == PROB_ONE
            &&& r.meter_s_plus_reroll_chance == PROB_ONE
            &&& r.base_reroll_amount_per_drop == Some(0u64)
            &&& r.meter_s_reroll_amount_per_drop == Some(0u64)
            &&& r.meter_s_plus_reroll_amount_per_drop == Some(0u64)
        },
        entry.base_chance == 0 && trials * METER_S_PLUS_INCREMENT < entry.max_score ==> {
            &&& r.meter_s_chance == 0
            &&& r.meter_s_plus_chance == 0
            &&& r.base_reroll_chance == 0
            &&& r.meter_s_reroll_chance == 0
            &&& r.meter_s_plus_reroll_chance == 0
            &&& r.base_reroll_amount_per_drop is None
            &&& r.meter_s_reroll_amount_per_drop is None
            &&& r.meter_s_plus_reroll_amount_per_drop is None
        },
{
    proof {
        if entry.base_chance == 0 && (trials as int) * (METER_S_PLUS_INCREMENT as int)
            < entry.max_score {
            // The slower accrual modes stay under the threshold a fortiori.
            lemma_mul_left_inequality(
                trials as int,
                METER_S_INCREMENT as int,
                METER_S_PLUS_INCREMENT as int,
            );
            lemma_mul_basics(trials as int);
        }
    }
    let meter_s = run_experiment(rng, entry.base_chance, entry.max_score, METER_S_INCREMENT, false, trials);
    let meter_s_plus = run_experiment(rng, entry.base_chance, entry.max_score, METER_S_PLUS_INCREMENT, false, trials);
    let base_reroll = run_experiment(rng, entry.base_chance, entry.max_score, 0, true, trials);
    let meter_s_reroll = run_experiment(rng, entry.base_chance, entry.max_score, METER_S_INCREMENT, true, trials);
    let meter_s_plus_reroll = run_experiment(rng, entry.base_chance, entry.max_score, METER_S_PLUS_INCREMENT, true, trials);
    SimulatedLoot {
        display_name: entry.display_name.clone(),
        id: entry.id.clone(),
        max_score: entry.max_score,
        base_chance: entry.base_chance,
        meter_s_chance: fixed_ratio(meter_s.successes, trials),
        meter_s_plus_chance: fixed_ratio(meter_s_plus.successes, trials),
        base_reroll_chance: fixed_ratio(base_reroll.successes, trials),
        base_reroll_amount_per_drop: reroll_amount(&base_reroll),
        meter_s_reroll_chance: fixed_ratio(meter_s_reroll.successes, trials),
        meter_s_reroll_amount_per_drop: reroll_amount(&meter_s_reroll),
        meter_s_plus_reroll_chance: fixed_ratio(meter_s_plus_reroll.successes, trials),
        meter_s_plus_reroll_amount_per_drop: reroll_amount(&meter_s_plus_reroll),
    }
}

/// Simulates every entry of one floor, in order, one result per entry.
pub fn simulate_floor(rng: &mut fastrand::Rng, floor: &FloorLoot, trials: u64) -> (r:
    SimulatedFloor)
    requires
        floor.valid(),
        0 < trials <= NUM_TRIALS,
    ensures
        floor_matches(r, *floor),
{
    let n = floor.entries.len();
    let mut results: Vec<SimulatedLoot> = Vec::new();
    let mut j: usize = 0;
    while j < n
        invariant
            j <= n,
            n == floor.entries@.len(),
            results@.len() == j,
            floor.valid(),
            0 < trials <= NUM_TRIALS,
            forall|k: int|
                0 <= k < j ==> result_matches_entry(
                    #[trigger] results@[k],
                    floor.entries@[k],
                ),
        decreases n - j,
    {
        let result = simulate_entry(rng, &floor.entries[j], trials);
        results.push(result);
        j = j + 1;
    }
    SimulatedFloor { name: floor.name.clone(), results }
}

/// Simulates a whole catalog: every floor key of the input appears in the
/// output with exactly one result per loot entry, in order, each result
/// carrying its source entry's identifying fields.
pub fn simulate_catalog(rng: &mut fastrand::Rng, catalog: &Vec<FloorLoot>, trials: u64) -> (r:
    Vec<SimulatedFloor>)
    requires
        catalog_valid(catalog@),
        0 < trials <= NUM_TRIALS,
    ensures
        r@.len() == catalog@.len(),
        forall|i: int|
            0 <= i < catalog@.len() ==> floor_matches(#[trigger] r@[i], catalog@[i]),
{
    let n = catalog.len();
    let mut out: Vec<SimulatedFloor> = Vec::new();
    let mut i: usize = 0;
    while i < n
        invariant
            i <= n,
            n == catalog@.len(),
            out@.len() == i,
            catalog_valid(catalog@),
            0 < trials <= NUM_TRIALS,
            forall|k: int| 0 <= k < i ==> floor_matches(#[trigger] out@[k], catalog@[k]),
        decreases n - i,
    {
        let floor_result = simulate_floor(rng, &catalog[i], trials);
        out.push(floor_result);
        i = i + 1;
    }
    out
}

} // verus!
