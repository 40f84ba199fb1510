//! Nanosecond timestamps and phase-offset checks.

use vstd::prelude::*;
use crate::text::{decimal, push_decimal, push_str};

pub mod ptp_constants;

verus! {

/// A timestamp in nanoseconds since the UNIX epoch.
#[derive(PartialEq, Eq, Structural, Clone, Copy, Debug, PartialOrd, Ord, Hash)]
pub struct CanonicalTime {
    ns_since_epoch: u128,
}

impl View for CanonicalTime {
    type V = u128;

    closed spec fn view(&self) -> u128 {
        self.ns_since_epoch
    }
}

/// The signed difference `a - b` of two timestamps, each read as an `i128`.
pub open spec fn phase_offset_of(a: u128, b: u128) -> int {
    (a as i128) - (b as i128)
}

/// The absolute value of `x`.
pub open spec fn abs_int(x: int) -> int {
    if x < 0 {
        -x
    } else {
        x
    }
}

impl CanonicalTime {
    /// The time `millis` milliseconds after the epoch.
    pub fn from_millis(millis: u64) -> (res: Self)
        ensures
            res@ == millis * 1_000_000,
    {
        CanonicalTime { ns_since_epoch: (millis as u128) * 1_000_000 }
    }

    /// The time `micros` microseconds after the epoch.
    pub fn from_micros(micros: u64) -> (res: Self)
        ensures
            res@ == micros * 1_000,
    {
        CanonicalTime { ns_since_epoch: (micros as u128) * 1_000 }
    }

    /// The time `nanos` nanoseconds after the epoch.
    pub fn from_nanos(nanos: u128) -> (res: Self)
        ensures
            res@ == nanos,
    {
        CanonicalTime { ns_since_epoch: nanos }
    }

    /// Nanoseconds since the epoch.
    pub fn as_nanos(&self) -> (res: u128)
        ensures
            res == self@,
    {
        self.ns_since_epoch
    }

    /// Whole microseconds since the epoch, truncated to 64 bits.
    pub fn as_micros(&self) -> (res: u64)
        ensures
            res == (self@ / 1_000) as u64,
    {
        (self.ns_since_epoch / 1_000) as u64
    }

    /// Whole milliseconds since the epoch, truncated to 64 bits.
    pub fn as_millis(&self) -> (res: u64)
        ensures
            res == (self@ / 1_000_000) as u64,
    {
        (self.ns_since_epoch / 1_000_000) as u64
    }

    /// The signed offset of this time from `reference`, in nanoseconds.
    pub fn phase_offset_ns(&self, reference: CanonicalTime) -> (res: i128)
        requires
            i128::MIN <= phase_offset_of(self@, reference@) <= i128::MAX,
        ensures
            res == phase_offset_of(self@, reference@),
    {
        (self.ns_since_epoch as i128) - (reference.ns_since_epoch as i128)
    }

    /// Whether the offset from `reference` exceeds the 250 ns phase limit.
    pub fn exceeds_phase_tolerance(&self, reference: CanonicalTime) -> (res: bool)
        requires
            i128::MIN < phase_offset_of(self@, reference@) <= i128::MAX,
        ensures
            res == (abs_int(phase_offset_of(self@, reference@))
                > ptp_constants::MAX_PHASE_OFFSET_NS),
    {
        let offset = self.phase_offset_ns(reference);
        let magnitude = if offset < 0 { -offset } else { offset };
        magnitude > (ptp_constants::MAX_PHASE_OFFSET_NS as i128)
    }

    /// The display text: nanoseconds, then microseconds and milliseconds.
    pub fn to_display_string(&self) -> (res: String)
        ensures
            res@ == decimal(self@ as nat) + " ns (μs: "@ + decimal((self@ / 1_000) as u64 as nat) + ", ms: "@
                + decimal((self@ / 1_000_000) as u64 as nat) + ")"@,
    {
        let mut s = String::new();
        push_decimal(&mut s, self.ns_since_epoch);
        push_str(&mut s, " ns (μs: ");
        push_decimal(&mut s, self.as_micros() as u128);
        push_str(&mut s, ", ms: ");
        push_decimal(&mut s, self.as_millis() as u128);
        push_str(&mut s, ")");
        assert(s@ =~= decimal(self@ as nat) + " ns (μs: "@ + decimal((self@ / 1_000) as u64 as nat) + ", ms: "@
            + decimal((self@ / 1_000_000) as u64 as nat) + ")"@);
        s
    }
}

} // verus!
