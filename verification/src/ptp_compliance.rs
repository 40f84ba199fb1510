//! PTP clock compliance: phase, frequency and delay limits and missed-sync counting.

use vstd::prelude::*;
use crate::canonical_time::ptp_constants;
use crate::canonical_time::abs_int;
use crate::failure_axis::{FailureAxis, SystemHalt};
use crate::text::{decimal, signed_decimal, push_str, push_decimal, push_signed_decimal};

verus! {

/// PTP clock class of the local clock.
#[derive(PartialEq, Eq, Structural, Clone, Copy, Debug)]
pub enum ClockClass {
    /// Master clock traceable to a primary reference (class 6).
    MasterTraceable,
    /// Grandmaster clock (class 7).
    Grandmaster,
    /// Ordinary clock, locked (class 13).
    OrdinaryLocked,
    /// Ordinary clock, not locked (class 187).
    OrdinaryUnlocked,
}

/// Timing stratum of the reference.
#[derive(PartialEq, Eq, Structural, Clone, Copy, Debug, PartialOrd, Ord)]
pub enum Stratum {
    Prc,
    Sec,
    Ter,
    Local,
    Gps,
}

/// Limits a clock must keep.
#[derive(Clone, Debug)]
pub struct JitterToleranceProfile {
    /// Largest input phase error, in nanoseconds.
    pub max_phase_error_ns: i64,
    /// Largest holdover drift rate, in parts per million.
    pub max_holdover_drift_ppm: i32,
    /// Largest one-way delay, in microseconds.
    pub max_owd_us: u64,
    /// Largest clock skew, in nanoseconds per second.
    pub max_clock_skew_ns_per_s: i64,
    /// Typical sync interval, in seconds.
    pub sync_interval_sec: u32,
}

impl Default for JitterToleranceProfile {
    fn default() -> (res: Self)
        ensures
            res.max_phase_error_ns == ptp_constants::MAX_PHASE_OFFSET_NS,
            res.max_holdover_drift_ppm == ptp_constants::MAX_FREQUENCY_DRIFT_PPM,
            res.max_owd_us == ptp_constants::MAX_OWD_US,
            res.max_clock_skew_ns_per_s == 1,
            res.sync_interval_sec == 8,
    {
        JitterToleranceProfile {
            max_phase_error_ns: ptp_constants::MAX_PHASE_OFFSET_NS,
            max_holdover_drift_ppm: ptp_constants::MAX_FREQUENCY_DRIFT_PPM,
            max_owd_us: ptp_constants::MAX_OWD_US,
            max_clock_skew_ns_per_s: 1,
            sync_interval_sec: 8,
        }
    }
}

/// A clock's class, stratum, limits and consecutive missed syncs.
#[derive(Clone, Debug)]
pub struct PtpCompliance {
    pub clock_class: ClockClass,
    pub stratum: Stratum,
    pub jitter_profile: JitterToleranceProfile,
    pub missed_syncs: u32,
    pub max_missed_syncs_allowed: u32,
}

/// The message of a phase offset beyond tolerance.
pub open spec fn phase_message(offset: int, max: int) -> Seq<char> {
    "Phase offset "@ + signed_decimal(offset) + " ns exceeds tolerance "@ + signed_decimal(max)
        + " ns (HALT_0xABF3)"@
}

/// The message of a frequency drift beyond tolerance.
pub open spec fn drift_message(drift: int, max: int) -> Seq<char> {
    "Frequency drift "@ + signed_decimal(drift) + " ppm exceeds tolerance ±"@ + signed_decimal(max)
        + " ppm (HALT_0xABF3)"@
}

/// The message of a one-way delay beyond tolerance.
pub open spec fn owd_message(owd: nat, max: nat) -> Seq<char> {
    "One-way delay "@ + decimal(owd) + " µs exceeds tolerance "@ + decimal(max) + " µs"@
}

/// The message of too many missed syncs.
pub open spec fn missed_message(missed: nat, max: nat) -> Seq<char> {
    "Missed syncs "@ + decimal(missed) + " exceeds tolerance "@ + decimal(max) + " (HALT_0xABF3)"@
}

/// `res` is `Ok` when `fails` is false, else a timing-drift halt with `message`.
pub open spec fn timing_check(res: Result<(), SystemHalt>, fails: bool, message: Seq<char>) -> bool {
    match res {
        Ok(_) => !fails,
        Err(h) => fails && h.axis == FailureAxis::TimingDriftFailure && h.message@ == message,
    }
}

/// The `Debug` name of a stratum.
pub open spec fn stratum_name(s: Stratum) -> Seq<char> {
    match s {
        Stratum::Prc => "Prc"@,
        Stratum::Sec => "Sec"@,
        Stratum::Ter => "Ter"@,
        Stratum::Local => "Local"@,
        Stratum::Gps => "Gps"@,
    }
}

/// The `Debug` name of a clock class.
pub open spec fn clock_class_name(c: ClockClass) -> Seq<char> {
    match c {
        ClockClass::MasterTraceable => "MasterTraceable"@,
        ClockClass::Grandmaster => "Grandmaster"@,
        ClockClass::OrdinaryLocked => "OrdinaryLocked"@,
        ClockClass::OrdinaryUnlocked => "OrdinaryUnlocked"@,
    }
}

impl PtpCompliance {
    /// A clock with the default limits, no missed syncs and the standard missed-sync limit.
    pub fn new(clock_class: ClockClass, stratum: Stratum) -> (res: Self)
        ensures
            res.clock_class == clock_class,
            res.stratum == stratum,
            res.jitter_profile.max_phase_error_ns == ptp_constants::MAX_PHASE_OFFSET_NS,
            res.jitter_profile.max_holdover_drift_ppm == ptp_constants::MAX_FREQUENCY_DRIFT_PPM,
            res.jitter_profile.max_owd_us == ptp_constants::MAX_OWD_US,
            res.jitter_profile.max_clock_skew_ns_per_s == 1,
            res.jitter_profile.sync_interval_sec == 8,
            res.missed_syncs == 0,
            res.max_missed_syncs_allowed == ptp_constants::MAX_MISSED_SYNCS,
    {
        PtpCompliance {
            clock_class,
            stratum,
            jitter_profile: JitterToleranceProfile::default(),
            missed_syncs: 0,
            max_missed_syncs_allowed: ptp_constants::MAX_MISSED_SYNCS,
        }
    }

    /// Halts when the phase offset's magnitude exceeds the profile's limit.
    pub fn validate_phase_offset(&self, offset_ns: i128) -> (res: Result<(), SystemHalt>)
        requires
            offset_ns != i128::MIN,
        ensures
            timing_check(
                res,
                abs_int(offset_ns as int) > self.jitter_profile.max_phase_error_ns,
                phase_message(offset_ns as int, self.jitter_profile.max_phase_error_ns as int),
            ),
    {
        let magnitude = if offset_ns < 0 { -offset_ns } else { offset_ns };
        if magnitude > (self.jitter_profile.max_phase_error_ns as i128) {
            let mut m = String::from_str("Phase offset ");
            push_signed_decimal(&mut m, offset_ns);
            push_str(&mut m, " ns exceeds tolerance ");
            push_signed_decimal(&mut m, self.jitter_profile.max_phase_error_ns as i128);
            push_str(&mut m, " ns (HALT_0xABF3)");
            return Err(SystemHalt::with_formatted(FailureAxis::TimingDriftFailure, m));
        }
        Ok(())
    }

    /// Halts when the drift's magnitude exceeds the profile's limit.
    pub fn validate_frequency_drift(&self, drift_ppm: i32) -> (res: Result<(), SystemHalt>)
        requires
            drift_ppm != i32::MIN,
        ensures
            timing_check(
                res,
                abs_int(drift_ppm as int) > self.jitter_profile.max_holdover_drift_ppm,
                drift_message(drift_ppm as int, self.jitter_profile.max_holdover_drift_ppm as int),
            ),
    {
        let magnitude = if drift_ppm < 0 { -drift_ppm } else { drift_ppm };
        if magnitude > self.jitter_profile.max_holdover_drift_ppm {
            let mut m = String::from_str("Frequency drift ");
            push_signed_decimal(&mut m, drift_ppm as i128);
            push_str(&mut m, " ppm exceeds tolerance ±");
            push_signed_decimal(&mut m, self.jitter_profile.max_holdover_drift_ppm as i128);
            push_str(&mut m, " ppm (HALT_0xABF3)");
            return Err(SystemHalt::with_formatted(FailureAxis::TimingDriftFailure, m));
        }
        Ok(())
    }

    /// Halts when the one-way delay exceeds the profile's limit.
    pub fn validate_owd(&self, owd_us: u64) -> (res: Result<(), SystemHalt>)
        ensures
            timing_check(
                res,
                owd_us > self.jitter_profile.max_owd_us,
                owd_message(owd_us as nat, self.jitter_profile.max_owd_us as nat),
            ),
    {
        if owd_us > self.jitter_profile.max_owd_us {
            let mut m = String::from_str("One-way delay ");
            push_decimal(&mut m, owd_us as u128);
            push_str(&mut m, " µs exceeds tolerance ");
            push_decimal(&mut m, self.jitter_profile.max_owd_us as u128);
            push_str(&mut m, " µs");
            return Err(SystemHalt::with_formatted(FailureAxis::TimingDriftFailure, m));
        }
        Ok(())
    }

    /// Counts one more missed sync (saturating) and halts once the count exceeds
    /// the allowed number.
    pub fn record_missed_sync(&mut self) -> (res: Result<(), SystemHalt>)
        ensures
            final(self).missed_syncs == if old(self).missed_syncs == u32::MAX {
                u32::MAX
            } else {
                (old(self).missed_syncs + 1) as u32
            },
            final(self).clock_class == old(self).clock_class,
            final(self).stratum == old(self).stratum,
            final(self).jitter_profile == old(self).jitter_profile,
            final(self).max_missed_syncs_allowed == old(self).max_missed_syncs_allowed,
            timing_check(
                res,
                final(self).missed_syncs > final(self).max_missed_syncs_allowed,
                missed_message(
                    final(self).missed_syncs as nat,
                    final(self).max_missed_syncs_allowed as nat,
                ),
            ),
    {
        self.missed_syncs = self.missed_syncs.saturating_add(1);
        if self.missed_syncs > self.max_missed_syncs_allowed {
            let mut m = String::from_str("Missed syncs ");
            push_decimal(&mut m, self.missed_syncs as u128);
            push_str(&mut m, " exceeds tolerance ");
            push_decimal(&mut m, self.max_missed_syncs_allowed as u128);
            push_str(&mut m, " (HALT_0xABF3)");
            return Err(SystemHalt::with_formatted(FailureAxis::TimingDriftFailure, m));
        }
        Ok(())
    }

    /// Clears the missed-sync count (a sync packet arrived).
    pub fn reset_missed_sync(&mut self)
        ensures
            final(self).missed_syncs == 0,
            final(self).clock_class == old(self).clock_class,
            final(self).stratum == old(self).stratum,
            final(self).jitter_profile == old(self).jitter_profile,
            final(self).max_missed_syncs_allowed == old(self).max_missed_syncs_allowed,
    {
        self.missed_syncs = 0;
    }

    /// Checks phase offset, then frequency drift, then one-way delay, stopping at
    /// the first halt.
    pub fn validate_all(&self, phase_offset_ns: i128, frequency_drift_ppm: i32, owd_us: u64) -> (res: Result<(), SystemHalt>)
        requires
            phase_offset_ns != i128::MIN,
            frequency_drift_ppm != i32::MIN,
        ensures
            ({
                let p = self.jitter_profile;
                let phase_bad = abs_int(phase_offset_ns as int) > p.max_phase_error_ns;
                let drift_bad = abs_int(frequency_drift_ppm as int) > p.max_holdover_drift_ppm;
                if phase_bad {
                    timing_check(res, true, phase_message(phase_offset_ns as int, p.max_phase_error_ns as int))
                } else if drift_bad {
                    timing_check(
                        res,
                        true,
                        drift_message(frequency_drift_ppm as int, p.max_holdover_drift_ppm as int),
                    )
                } else {
                    timing_check(res, owd_us > p.max_owd_us, owd_message(owd_us as nat, p.max_owd_us as nat))
                }
            }),
    {
        match self.validate_phase_offset(phase_offset_ns) {
            Err(h) => return Err(h),
            Ok(_) => {},
        }
        match self.validate_frequency_drift(frequency_drift_ppm) {
            Err(h) => return Err(h),
            Ok(_) => {},
        }
        self.validate_owd(owd_us)
    }

    /// `Stratum <name> @ ClockClass <name>`, for diagnostics.
    pub fn stratum_chain(&self) -> (res: String)
        ensures
            res@ == "Stratum "@ + stratum_name(self.stratum) + " @ ClockClass "@ + clock_class_name(
                self.clock_class,
            ),
    {
        let mut s = String::from_str("Stratum ");
        let stratum = match self.stratum {
            Stratum::Prc => "Prc",
            Stratum::Sec => "Sec",
            Stratum::Ter => "Ter",
            Stratum::Local => "Local",
            Stratum::Gps => "Gps",
        };
        push_str(&mut s, stratum);
        push_str(&mut s, " @ ClockClass ");
        let class = match self.clock_class {
            ClockClass::MasterTraceable => "MasterTraceable",
            ClockClass::Grandmaster => "Grandmaster",
            ClockClass::OrdinaryLocked => "OrdinaryLocked",
            ClockClass::OrdinaryUnlocked => "OrdinaryUnlocked",
        };
        push_str(&mut s, class);
        s
    }
}

} // verus!
