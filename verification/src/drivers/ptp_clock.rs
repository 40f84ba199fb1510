//! The PTP hardware clock: issues strictly increasing nanosecond timestamps from
//! wall-clock observations and halts when the step between two timestamps, or the
//! servo's frequency estimate, leaves the IEEE 1588 tolerances.
//!
//! Reading the wall clock and running the servo's PI controller happen outside
//! this type; it receives the observation and the servo's estimate as values.

use vstd::prelude::*;
use crate::canonical_time::{CanonicalTime, ptp_constants, abs_int};
use crate::failure_axis::{FailureAxis, SystemHalt};
use crate::ptp_compliance::{phase_message, drift_message, timing_check};
use crate::text::{push_str, push_signed_decimal, signed_decimal};

verus! {

#[derive(Debug)]
pub struct PtpClock {
    last_ns: u64,
    freq_offset_ppm: i32,
}

/// The timestamp issued after `prev` for a wall-clock observation `observed`:
/// the observation, but never less than one past the previous timestamp.
pub open spec fn next_timestamp(prev: u64, observed: u64) -> u64 {
    let floor: u64 = if prev == u64::MAX { u64::MAX } else { (prev + 1) as u64 };
    if observed > floor { observed } else { floor }
}

/// The message of an injected drift beyond tolerance.
pub open spec fn injected_drift_message(drift: int) -> Seq<char> {
    "Injected drift "@ + signed_decimal(drift) + " ppm exceeds tolerance (HALT_0xABF3)"@
}

impl PtpClock {
    /// The last timestamp issued, in nanoseconds.
    pub closed spec fn last(self) -> u64 {
        self.last_ns
    }

    /// The current frequency offset, in parts per million.
    pub closed spec fn frequency(self) -> i32 {
        self.freq_offset_ppm
    }

    pub fn new() -> (res: Self)
        ensures
            res.last() == 0,
            res.frequency() == 0,
    {
        PtpClock { last_ns: 0, freq_offset_ppm: 0 }
    }

    /// The last timestamp issued, in nanoseconds.
    pub fn last_issued_ns(&self) -> (res: u64)
        ensures
            res == self.last(),
    {
        self.last_ns
    }

    /// Issues the timestamp for a wall-clock observation of `observed_ns`
    /// nanoseconds: `next_timestamp` of the previous one. When the step from the
    /// previous timestamp exceeds the phase tolerance the clock halts and keeps
    /// its previous timestamp.
    pub fn read_nanos(&mut self, observed_ns: u64) -> (res: Result<u64, SystemHalt>)
        ensures
            final(self).frequency() == old(self).frequency(),
            ({
                let next = next_timestamp(old(self).last(), observed_ns);
                let step = next - old(self).last();
                match res {
                    Ok(n) => step <= ptp_constants::MAX_PHASE_OFFSET_NS && n == next
                        && final(self).last() == next,
                    Err(h) => step > ptp_constants::MAX_PHASE_OFFSET_NS && h.axis
                        == FailureAxis::TimingDriftFailure && h.message@ == phase_message(
                        step,
                        ptp_constants::MAX_PHASE_OFFSET_NS as int,
                    ) && final(self).last() == old(self).last(),
                }
            }),
    {
        let prev = self.last_ns;
        let floor = prev.saturating_add(1);
        let next = if observed_ns > floor { observed_ns } else { floor };
        let offset_ns: i128 = (next as i128) - (prev as i128);
        if offset_ns > (ptp_constants::MAX_PHASE_OFFSET_NS as i128) {
            let mut m = String::from_str("Phase offset ");
            push_signed_decimal(&mut m, offset_ns);
            push_str(&mut m, " ns exceeds tolerance ");
            push_signed_decimal(&mut m, ptp_constants::MAX_PHASE_OFFSET_NS as i128);
            push_str(&mut m, " ns (HALT_0xABF3)");
            return Err(SystemHalt::with_formatted(FailureAxis::TimingDriftFailure, m));
        }
        self.last_ns = next;
        Ok(next)
    }

    /// The timestamp of `read_nanos` in whole microseconds.
    pub fn read_micros(&mut self, observed_ns: u64) -> (res: Result<u64, SystemHalt>)
        ensures
            final(self).frequency() == old(self).frequency(),
            ({
                let next = next_timestamp(old(self).last(), observed_ns);
                let step = next - old(self).last();
                match res {
                    Ok(us) => step <= ptp_constants::MAX_PHASE_OFFSET_NS && us == next / 1000
                        && final(self).last() == next,
                    Err(h) => step > ptp_constants::MAX_PHASE_OFFSET_NS && h.axis
                        == FailureAxis::TimingDriftFailure && final(self).last() == old(self).last(),
                }
            }),
    {
        let ns = self.read_nanos(observed_ns)?;
        Ok(ns / 1_000)
    }

    /// The current frequency offset, in parts per million.
    pub fn freq_offset_ppm(&self) -> (res: i32)
        ensures
            res == self.frequency(),
    {
        self.freq_offset_ppm
    }

    /// Takes the servo's frequency estimate after a reading, and halts when it is
    /// beyond the frequency tolerance (the estimate is kept either way).
    pub fn apply_servo_frequency(&mut self, freq_ppm: i32) -> (res: Result<(), SystemHalt>)
        requires
            freq_ppm != i32::MIN,
        ensures
            final(self).frequency() == freq_ppm,
            final(self).last() == old(self).last(),
            timing_check(
                res,
                abs_int(freq_ppm as int) > ptp_constants::MAX_FREQUENCY_DRIFT_PPM,
                drift_message(freq_ppm as int, ptp_constants::MAX_FREQUENCY_DRIFT_PPM as int),
            ),
    {
        self.freq_offset_ppm = freq_ppm;
        let magnitude = if freq_ppm < 0 { -freq_ppm } else { freq_ppm };
        if magnitude > ptp_constants::MAX_FREQUENCY_DRIFT_PPM {
            let mut m = String::from_str("Frequency drift ");
            push_signed_decimal(&mut m, freq_ppm as i128);
            push_str(&mut m, " ppm exceeds tolerance ±");
            push_signed_decimal(&mut m, ptp_constants::MAX_FREQUENCY_DRIFT_PPM as i128);
            push_str(&mut m, " ppm (HALT_0xABF3)");
            return Err(SystemHalt::with_formatted(FailureAxis::TimingDriftFailure, m));
        }
        Ok(())
    }

    /// Sets a simulated frequency drift; a drift beyond tolerance is refused and
    /// leaves the clock unchanged.
    pub fn inject_clock_drift(&mut self, drift_ppm: i32) -> (res: Result<(), SystemHalt>)
        requires
            drift_ppm != i32::MIN,
        ensures
            final(self).last() == old(self).last(),
            timing_check(
                res,
                abs_int(drift_ppm as int) > ptp_constants::MAX_FREQUENCY_DRIFT_PPM,
                injected_drift_message(drift_ppm as int),
            ),
            res is Ok ==> final(self).frequency() == drift_ppm,
            res is Err ==> final(self).frequency() == old(self).frequency(),
    {
        let magnitude = if drift_ppm < 0 { -drift_ppm } else { drift_ppm };
        if magnitude > ptp_constants::MAX_FREQUENCY_DRIFT_PPM {
            let mut m = String::from_str("Injected drift ");
            push_signed_decimal(&mut m, drift_ppm as i128);
            push_str(&mut m, " ppm exceeds tolerance (HALT_0xABF3)");
            return Err(SystemHalt::with_formatted(FailureAxis::TimingDriftFailure, m));
        }
        self.freq_offset_ppm = drift_ppm;
        Ok(())
    }

    /// The canonical time of `read_nanos`.
    pub fn as_canonical(&mut self, observed_ns: u64) -> (res: Result<CanonicalTime, SystemHalt>)
        ensures
            final(self).frequency() == old(self).frequency(),
            ({
                let next = next_timestamp(old(self).last(), observed_ns);
                let step = next - old(self).last();
                match res {
                    Ok(t) => step <= ptp_constants::MAX_PHASE_OFFSET_NS && t@ == next as u128
                        && final(self).last() == next,
                    Err(h) => step > ptp_constants::MAX_PHASE_OFFSET_NS && h.axis
                        == FailureAxis::TimingDriftFailure && final(self).last() == old(self).last(),
                }
            }),
    {
        let ns = self.read_nanos(observed_ns)?;
        Ok(CanonicalTime::from_nanos(ns as u128))
    }
}

impl Default for PtpClock {
    fn default() -> (res: Self)
        ensures
            res.last() == 0,
            res.frequency() == 0,
    {
        Self::new()
    }
}

/// Timestamps never run backward and never repeat: each one issued is at least
/// the wall-clock observation and greater than the one before (the previous one
/// can only be repeated once the clock has reached the largest `u64`).
pub proof fn lemma_timestamps_strictly_increase(prev: u64, observed: u64)
    ensures
        next_timestamp(prev, observed) >= observed,
        prev < u64::MAX ==> next_timestamp(prev, observed) > prev,
        next_timestamp(prev, observed) >= prev,
{
}

} // verus!
