//! Deployment manifest sections that carry integer settings, and the frequency
//! bounds check of the manifest.

use vstd::prelude::*;

verus! {

/// Kernel loop rate and per-tick execution budget.
#[derive(Clone, Copy, Debug)]
pub struct KernelSafetyInvariants {
    /// Kernel loop rate (1 kHz).
    pub tick_rate_hz: u16,
    /// Worst-case execution budget per tick, in microseconds.
    pub wcet_budget_micros: u32,
}

impl Default for KernelSafetyInvariants {
    fn default() -> (res: Self)
        ensures
            res.tick_rate_hz == 1000,
            res.wcet_budget_micros == 1000,
    {
        KernelSafetyInvariants { tick_rate_hz: 1000, wcet_budget_micros: 1000 }
    }
}

/// CIP-012 cyber settings.
#[derive(Clone, Copy, Debug)]
pub struct CyberCIP012Config {
    pub active_enforcement: bool,
    pub signature_algorithm: u8,
    pub key_rotation_days: u16,
}

impl Default for CyberCIP012Config {
    fn default() -> (res: Self)
        ensures
            res.active_enforcement,
            res.signature_algorithm == 1,
            res.key_rotation_days == 30,
    {
        CyberCIP012Config { active_enforcement: true, signature_algorithm: 1, key_rotation_days: 30 }
    }
}

/// PRC-029 frequency ride-through bounds.
#[derive(Clone, Copy, Debug)]
pub struct RideThroughPRC029Config {
    pub active_enforcement: bool,
    pub min_freq_hz: u8,
    pub max_freq_hz: u8,
}

impl Default for RideThroughPRC029Config {
    fn default() -> (res: Self)
        ensures
            res.active_enforcement,
            res.min_freq_hz == 59,
            res.max_freq_hz == 61,
    {
        RideThroughPRC029Config { active_enforcement: true, min_freq_hz: 59, max_freq_hz: 61 }
    }
}

/// Stable ticks each mandate needs to recover.
#[derive(Clone, Copy, Debug)]
pub struct RecoveryProtocolConfig {
    pub tpl008_recovery_ticks: u64,
    pub prc029_recovery_ticks: u64,
    pub cip012_recovery_ticks: u64,
}

impl Default for RecoveryProtocolConfig {
    fn default() -> (res: Self)
        ensures
            res.tpl008_recovery_ticks == 5000,
            res.prc029_recovery_ticks == 3000,
            res.cip012_recovery_ticks == 100,
    {
        RecoveryProtocolConfig { tpl008_recovery_ticks: 5000, prc029_recovery_ticks: 3000, cip012_recovery_ticks: 100 }
    }
}

/// The frequency section is valid when its lower bound is below its upper bound.
pub fn validate_frequency_bounds(frequency: &RideThroughPRC029Config) -> (res: Result<(), String>)
    ensures
        frequency.min_freq_hz < frequency.max_freq_hz ==> res is Ok,
        frequency.min_freq_hz >= frequency.max_freq_hz ==> res is Err && res->Err_0@
            == "Frequency bounds inverted"@,
{
    if frequency.min_freq_hz >= frequency.max_freq_hz {
        return Err(String::from_str("Frequency bounds inverted"));
    }
    Ok(())
}

} // verus!
