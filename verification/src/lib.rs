//! Spike detection for listener counts of radio feeds.
//!
//! The crate keeps a small rolling window of listener samples per feed,
//! maintains a drift-resistant baseline that an active spike cannot pull
//! upward, classifies each polling cycle as spiking or not, and persists
//! coarse per-feed baselines in six time-of-day buckets.
//!
//! All fractional quantities (averages, thresholds, baselines) are exact
//! fixed-point integers scaled by [`RATIO_SCALE`]: a stored value `v`
//! stands for the real number `v / RATIO_SCALE`.

use vstd::prelude::*;

pub mod average;
pub mod config;
pub mod err;
pub mod scrape;
pub mod time;
pub mod update;
pub mod stats;
pub mod store;
pub mod feed;
pub mod text;

verus! {

/// Fixed-point scale: a stored value `v` stands for `v / RATIO_SCALE`.
pub const RATIO_SCALE: u64 = 10000;

/// Largest scaled value a listener count can take: `u32::MAX * RATIO_SCALE`.
pub const MAX_SCALED: u64 = 4294967295 * 10000;

} // verus!
