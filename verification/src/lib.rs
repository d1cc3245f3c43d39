//! Monte Carlo estimation of loot drop probabilities under a score meter.
//!
//! A hidden meter accrues score on every unsuccessful attempt and linearly
//! boosts an item's base drop chance until, at a configured threshold, a drop
//! is guaranteed. This crate models the meter formula and the trial loops that
//! estimate the realized drop rates, with and without a second unboosted
//! "reroll" draw after a failed attempt.
//!
//! All probabilities are fixed-point integers: `meter::PROB_ONE` stands for
//! certainty, so a chance `c` in `[0, 1]` is carried as `c * PROB_ONE`
//! rounded to an integer.

pub mod catalog;
pub mod engine;
pub mod meter;
pub mod rng;
