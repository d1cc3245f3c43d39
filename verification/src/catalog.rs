//! The loot catalog handed to the engine, and the result records it fills.
//!
//! A catalog is a sequence of floors; each floor carries a name and its loot
//! entries. The engine turns every entry into exactly one result record under
//! the same floor name, in the same order.

use crate::meter::{MAX_METER_SCORE, PROB_ONE};
use vstd::prelude::*;

verus! {

/// One item that may drop: its display name, stable id, base drop chance in
/// fixed point, and the meter score at which a drop is guaranteed.
#[derive(Clone, Debug)]
pub struct LootEntry {
    pub display_name: String,
    pub id: String,
    pub base_chance: u64,
    pub max_score: u64,
}

impl LootEntry {
    /// An entry the engine accepts: the base chance is a probability and the
    /// threshold is positive and small enough that meter accrual cannot
    /// overflow.
    pub open spec fn valid(self) -> bool {
        &&& self.base_chance <= PROB_ONE
        &&& 0 < self.max_score <= MAX_METER_SCORE
    }

    /// Decides `valid()`, so that unverified callers can reject a malformed
    /// entry at load time instead of reaching the engine with it.
    pub fn is_valid(&self) -> (r: bool)
        ensures
            r == self.valid(),
    {
        self.base_chance <= PROB_ONE && self.max_score > 0 && self.max_score <= MAX_METER_SCORE
    }
}

/// A named floor and the loot entries found on it.
#[derive(Clone, Debug)]
pub struct FloorLoot {
    pub name: String,
    pub entries: Vec<LootEntry>,
}

impl FloorLoot {
    /// A floor the engine accepts: every entry on it is valid.
    pub open spec fn valid(self) -> bool {
        forall|i: int| 0 <= i < self.entries@.len() ==> (#[trigger] self.entries@[i]).valid()
    }

    /// Decides `valid()` for load-time rejection of malformed input.
    pub fn is_valid(&self) -> (r: bool)
        ensures
            r == self.valid(),
    {
        let n = self.entries.len();
        let mut i: usize = 0;
        while i < n
            invariant
                i <= n,
                n == self.entries@.len(),
                forall|k: int| 0 <= k < i ==> (#[trigger] self.entries@[k]).valid(),
            decreases n - i,
        {
            if !self.entries[i].is_valid() {
                return false;
            }
            i = i + 1;
        }
        true
    }
}

/// Whether every floor of a catalog is valid.
pub open spec fn catalog_valid(catalog: Seq<FloorLoot>) -> bool {
    forall|i: int| 0 <= i < catalog.len() ==> (#[trigger] catalog[i]).valid()
}

/// Decides `catalog_valid()` for load-time rejection of malformed input.
pub fn catalog_is_valid(catalog: &Vec<FloorLoot>) -> (r: bool)
    ensures
        r == catalog_valid(catalog@),
{
    let n = catalog.len();
    let mut i: usize = 0;
    while i < n
        invariant
            i <= n,
            n == catalog@.len(),
            forall|k: int| 0 <= k < i ==> (#[trigger] catalog@[k]).valid(),
        decreases n - i,
    {
        if !catalog[i].is_valid() {
            return false;
        }
        i = i + 1;
    }
    true
}

/// The simulated statistics of one loot entry. The identifying fields repeat
/// the source entry; the chance fields are fixed-point probabilities; the
/// amount fields are fixed-point ratios of rerolls consumed per successful
/// drop, and are `None` when no trial succeeded, so the ratio is undefined.
#[derive(Clone, Debug, PartialEq, Eq)]
pub struct SimulatedLoot {
    pub display_name: String,
    pub id: String,
    pub max_score: u64,
    pub base_chance: u64,
    pub meter_s_chance: u64,
    pub meter_s_plus_chance: u64,
    pub base_reroll_chance: u64,
    pub base_reroll_amount_per_drop: Option<u64>,
    pub meter_s_reroll_chance: u64,
    pub meter_s_reroll_amount_per_drop: Option<u64>,
    pub meter_s_plus_reroll_chance: u64,
    pub meter_s_plus_reroll_amount_per_drop: Option<u64>,
}

/// Whether a result record carries the identifying fields of its source entry
/// and only well-formed probabilities.
pub open spec fn result_matches_entry(r: SimulatedLoot, e: LootEntry) -> bool {
    &&& r.display_name@ == e.display_name@
    &&& r.id@ == e.id@
    &&& r.base_chance == e.base_chance
    &&& r.max_score == e.max_score
    &&& r.meter_s_chance <= PROB_ONE
    &&& r.meter_s_plus_chance <= PROB_ONE
    &&& r.base_reroll_chance <= PROB_ONE
    &&& r.meter_s_reroll_chance <= PROB_ONE
    &&& r.meter_s_plus_reroll_chance <= PROB_ONE
}

/// A named floor and the result records of its loot entries.
#[derive(Clone, Debug, PartialEq, Eq)]
pub struct SimulatedFloor {
    pub name: String,
    pub results: Vec<SimulatedLoot>,
}

/// Whether a simulated floor mirrors its source floor: same name, one result
/// per entry, in order, each carrying its entry's identifying fields.
pub open spec fn floor_matches(r: SimulatedFloor, f: FloorLoot) -> bool {
    &&& r.name@ == f.name@
    &&& r.results@.len() == f.entries@.len()
    &&& forall|j: int|
        0 <= j < r.results@.len() ==> result_matches_entry(
            #[trigger] r.results@[j],
            f.entries@[j],
        )
}

} // verus!
