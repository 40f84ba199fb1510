//! Timing limits beyond which a timing-drift halt fires.

use vstd::prelude::*;

verus! {

/// Largest allowed phase offset, in nanoseconds.
pub const MAX_PHASE_OFFSET_NS: i64 = 250;

/// Largest allowed frequency drift, in parts per million.
pub const MAX_FREQUENCY_DRIFT_PPM: i32 = 20;

/// Largest allowed one-way delay, in microseconds.
pub const MAX_OWD_US: u64 = 1000;

/// Largest allowed jitter peak, in nanoseconds.
pub const MAX_JITTER_PEAK_NS: u64 = 100;

/// Consecutive missed sync packets tolerated before a halt.
pub const MAX_MISSED_SYNCS: u32 = 10;

} // verus!
