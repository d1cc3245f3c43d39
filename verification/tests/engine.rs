use loot_meter::catalog::{catalog_is_valid, FloorLoot, LootEntry};
use loot_meter::engine::{fixed_ratio, run_experiment, simulate_catalog, simulate_entry};
use loot_meter::meter::{METER_S_INCREMENT, NUM_TRIALS, PROB_ONE};

fn entry(id: &str, base_chance: u64, max_score: u64) -> LootEntry {
    LootEntry {
        display_name: format!("{} item", id),
        id: id.to_string(),
        base_chance,
        max_score,
    }
}

// Ratios are exact fixed-point quotients.
#[test]
fn fixed_ratio_exact_values() {
    assert_eq!(fixed_ratio(1, 2), 500_000_000);
    assert_eq!(fixed_ratio(0, 7), 0);
    assert_eq!(fixed_ratio(7, 7), PROB_ONE);
    assert_eq!(fixed_ratio(3, 1), 3_000_000_000);
    assert_eq!(fixed_ratio(1, 3), 333_333_333);
}

// A certain base chance drops every attempt: every success statistic is
// exactly certainty and no reroll is ever consumed.
#[test]
fn certain_drop_pins_all_statistics() {
    let mut rng = fastrand::Rng::with_seed(7);
    let e = entry("relic", PROB_ONE, 1000);
    let r = simulate_entry(&mut rng, &e, 10_000);
    assert_eq!(r.meter_s_chance, PROB_ONE);
    assert_eq!(r.meter_s_plus_chance, PROB_ONE);
    assert_eq!(r.base_reroll_chance, PROB_ONE);
    assert_eq!(r.meter_s_reroll_chance, PROB_ONE);
    assert_eq!(r.meter_s_plus_reroll_chance, PROB_ONE);
    assert_eq!(r.base_reroll_amount_per_drop, Some(0));
    assert_eq!(r.meter_s_reroll_amount_per_drop, Some(0));
    assert_eq!(r.meter_s_plus_reroll_amount_per_drop, Some(0));
}

// A zero base chance with an unreachable threshold never drops: the reroll
// ratio is undefined and reported as None.
#[test]
fn zero_chance_never_drops() {
    let mut rng = fastrand::Rng::with_seed(11);
    let e = entry("dust", 0, 0x1000_0000_0000_0000);
    let r = simulate_entry(&mut rng, &e, 10_000);
    assert_eq!(r.meter_s_chance, 0);
    assert_eq!(r.meter_s_plus_chance, 0);
    assert_eq!(r.base_reroll_chance, 0);
    assert_eq!(r.base_reroll_amount_per_drop, None);
    assert_eq!(r.meter_s_reroll_amount_per_drop, None);
    assert_eq!(r.meter_s_plus_reroll_amount_per_drop, None);
}

// With the threshold unreachable, the metered chance converges to the base
// chance within sampling tolerance.
#[test]
fn unreachable_meter_converges_to_base_chance() {
    let mut rng = fastrand::Rng::with_seed(13);
    let base: u64 = 50_000_000; // 5%
    let stats = run_experiment(&mut rng, base, 0x1000_0000_0000_0000, METER_S_INCREMENT, false, 1_000_000);
    let chance = fixed_ratio(stats.successes, 1_000_000);
    assert!(chance > 49_000_000 && chance < 51_000_000, "chance = {}", chance);
}

// A fair coin estimated from a seeded stream lands near one half; this would
// fail if the draws were not uniform over the fixed-point range.
#[test]
fn fair_coin_lands_near_half() {
    let mut rng = fastrand::Rng::with_seed(17);
    let stats = run_experiment(&mut rng, 500_000_000, 0x1000_0000_0000_0000, 0, false, 100_000);
    let chance = fixed_ratio(stats.successes, 100_000);
    assert!(chance > 490_000_000 && chance < 510_000_000, "chance = {}", chance);
}

// With rerolls enabled, every first-draw failure consumes exactly one reroll:
// successes plus rerolls can never undershoot the attempt count.
#[test]
fn rerolls_count_first_draw_failures() {
    let mut rng = fastrand::Rng::with_seed(19);
    let trials: u64 = 50_000;
    let stats = run_experiment(&mut rng, 300_000_000, 0x1000_0000_0000_0000, 0, true, trials);
    assert!(stats.successes <= trials);
    assert!(stats.rerolls <= trials);
    assert!(stats.successes + stats.rerolls >= trials);
    // Roughly: 30% succeed at once, 70% reroll, of which 30% succeed.
    let chance = fixed_ratio(stats.successes, trials);
    assert!(chance > 480_000_000 && chance < 540_000_000, "chance = {}", chance);
}

// The documented example: a 5% chance with threshold 2_800_000 and S-mode
// accrual of 189 per attempt, over the full trial count. The meter bonus is
// tiny at this threshold, so the realized rate lands close to 5%.
#[test]
fn example_meter_s_chance_near_base() {
    let mut rng = fastrand::Rng::with_seed(23);
    let base: u64 = 50_000_000;
    let stats = run_experiment(&mut rng, base, 2_800_000, METER_S_INCREMENT, false, NUM_TRIALS);
    let chance = fixed_ratio(stats.successes, NUM_TRIALS);
    assert!(chance > 49_600_000 && chance < 50_400_000, "chance = {}", chance);
}

// Every input floor key appears in the output with one result per entry, in
// order, each result carrying its source entry's identity.
#[test]
fn catalog_keys_and_ids_preserved() {
    let mut rng = fastrand::Rng::with_seed(29);
    let catalog = vec![
        FloorLoot {
            name: "floor_one".to_string(),
            entries: vec![entry("hilt", 5_000_000, 2_800_000)],
        },
        FloorLoot {
            name: "floor_two".to_string(),
            entries: vec![
                entry("scroll", 20_000_000, 1_000_000),
                entry("plate", 500_000_000, 10_000),
            ],
        },
    ];
    assert!(catalog_is_valid(&catalog));
    let out = simulate_catalog(&mut rng, &catalog, 2_000);
    assert_eq!(out.len(), 2);
    assert_eq!(out[0].name, "floor_one");
    assert_eq!(out[1].name, "floor_two");
    assert_eq!(out[0].results.len(), 1);
    assert_eq!(out[1].results.len(), 2);
    assert_eq!(out[0].results[0].id, "hilt");
    assert_eq!(out[0].results[0].display_name, "hilt item");
    assert_eq!(out[0].results[0].base_chance, 5_000_000);
    assert_eq!(out[0].results[0].max_score, 2_800_000);
    assert_eq!(out[1].results[0].id, "scroll");
    assert_eq!(out[1].results[1].id, "plate");
}

// Re-running the whole pipeline from the same seed on the same input yields
// identical output.
#[test]
fn seeded_reruns_are_identical() {
    let catalog = vec![
        FloorLoot {
            name: "floor_one".to_string(),
            entries: vec![
                entry("hilt", 5_000_000, 2_800_000),
                entry("plate", 500_000_000, 10_000),
            ],
        },
    ];
    assert!(catalog_is_valid(&catalog));
    let mut rng_a = fastrand::Rng::with_seed(31);
    let out_a = simulate_catalog(&mut rng_a, &catalog, 5_000);
    let mut rng_b = fastrand::Rng::with_seed(31);
    let out_b = simulate_catalog(&mut rng_b, &catalog, 5_000);
    assert_eq!(out_a, out_b);
}

// An empty catalog simulates to an empty result catalog.
#[test]
fn empty_catalog_yields_empty_output() {
    let mut rng = fastrand::Rng::with_seed(37);
    let catalog: Vec<FloorLoot> = vec![];
    assert!(catalog_is_valid(&catalog));
    let out = simulate_catalog(&mut rng, &catalog, 1_000);
    assert!(out.is_empty());
}

// Malformed entries are rejected at load time by the validity check.
#[test]
fn validity_rejects_malformed_entries() {
    assert!(entry("ok", 50_000_000, 2_800_000).is_valid());
    // A zero threshold would divide by zero in the meter formula.
    assert!(!entry("bad_max", 50_000_000, 0).is_valid());
    // A chance above certainty is not a probability.
    assert!(!entry("bad_chance", PROB_ONE + 1, 2_800_000).is_valid());
    let floor = FloorLoot {
        name: "floor_bad".to_string(),
        entries: vec![entry("ok", 50_000_000, 2_800_000), entry("bad_max", 1, 0)],
    };
    assert!(!floor.is_valid());
    assert!(!catalog_is_valid(&vec![floor]));
}
