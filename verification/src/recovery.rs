//! Recovery from a mandate violation: counting stable ticks until the mandate's
//! threshold and recording the recovery.

use vstd::prelude::*;
use crate::text::{decimal, push_str, push_decimal};

verus! {

/// The record of a completed recovery.
#[derive(Clone, Debug)]
pub struct RecoveryTestament {
    pub mandate: String,
    pub violation_tick: u64,
    pub recovery_tick: u64,
    pub stable_ticks: u64,
}

/// Where the system stands with respect to recovery.
#[derive(PartialEq, Eq, Structural, Clone, Copy, Debug)]
pub enum RecoveryStatus {
    Nominal,
    InRecovery,
    Recovered,
}

/// The display name of a recovery status.
pub open spec fn recovery_status_name(s: RecoveryStatus) -> Seq<char> {
    match s {
        RecoveryStatus::Nominal => "Nominal"@,
        RecoveryStatus::InRecovery => "InRecovery"@,
        RecoveryStatus::Recovered => "Recovered"@,
    }
}

impl RecoveryStatus {
    /// The status's display name.
    pub fn to_display_string(&self) -> (res: String)
        ensures
            res@ == recovery_status_name(*self),
    {
        let t = match self {
            RecoveryStatus::Nominal => "Nominal",
            RecoveryStatus::InRecovery => "InRecovery",
            RecoveryStatus::Recovered => "Recovered",
        };
        String::from_str(t)
    }
}

/// Stable ticks each mandate needs before recovery completes.
#[derive(Clone, Debug)]
pub struct RecoveryConfig {
    pub tpl008_thermal_stable_ticks: u64,
    pub prc029_freq_stable_ticks: u64,
    pub cip012_crypto_stable_ticks: u64,
}

impl Default for RecoveryConfig {
    fn default() -> (res: Self)
        ensures
            res.tpl008_thermal_stable_ticks == 5000,
            res.prc029_freq_stable_ticks == 3000,
            res.cip012_crypto_stable_ticks == 100,
    {
        RecoveryConfig {
            tpl008_thermal_stable_ticks: 5000,
            prc029_freq_stable_ticks: 3000,
            cip012_crypto_stable_ticks: 100,
        }
    }
}

/// The recovery status, the violated mandate, the stable ticks counted, and when
/// recovery began.
#[derive(Clone, Debug)]
pub struct RecoveryState {
    pub status: RecoveryStatus,
    pub violation_mandate: Option<String>,
    pub stable_tick_count: u64,
    pub entered_at: u64,
}

impl Default for RecoveryState {
    fn default() -> (res: Self)
        ensures
            res.status == RecoveryStatus::Nominal,
            res.violation_mandate is None,
            res.stable_tick_count == 0,
            res.entered_at == 0,
    {
        RecoveryState {
            status: RecoveryStatus::Nominal,
            violation_mandate: None,
            stable_tick_count: 0,
            entered_at: 0,
        }
    }
}

/// The stable ticks that mandate `m` needs (1000 for any other mandate or none).
pub open spec fn recovery_threshold(config: RecoveryConfig, m: Option<Seq<char>>) -> u64 {
    match m {
        Some(t) => if t == "TPL-008-1"@ {
            config.tpl008_thermal_stable_ticks
        } else if t == "PRC-029-1"@ {
            config.prc029_freq_stable_ticks
        } else if t == "CIP-012-2"@ {
            config.cip012_crypto_stable_ticks
        } else {
            1000
        },
        None => 1000,
    }
}

/// The view of an optional mandate.
pub open spec fn mandate_view(m: Option<String>) -> Option<Seq<char>> {
    match m {
        Some(s) => Some(s@),
        None => None,
    }
}

fn threshold_for(config: &RecoveryConfig, mandate: &Option<String>) -> (res: u64)
    ensures
        res == recovery_threshold(*config, mandate_view(*mandate)),
{
    match mandate {
        Some(t) => {
            if *t == String::from_str("TPL-008-1") {
                config.tpl008_thermal_stable_ticks
            } else if *t == String::from_str("PRC-029-1") {
                config.prc029_freq_stable_ticks
            } else if *t == String::from_str("CIP-012-2") {
                config.cip012_crypto_stable_ticks
            } else {
                1000
            }
        },
        None => 1000,
    }
}

/// The recovery state after one tick in which the envelopes held (`ok`) or not.
pub open spec fn recovery_next(s: RecoveryState, config: RecoveryConfig, ok: bool) -> RecoveryState {
    if s.status == RecoveryStatus::Nominal {
        s
    } else if ok {
        let count = (s.stable_tick_count + 1) as u64;
        RecoveryState {
            stable_tick_count: count,
            status: if count >= recovery_threshold(config, mandate_view(s.violation_mandate)) {
                RecoveryStatus::Recovered
            } else {
                s.status
            },
            ..s
        }
    } else {
        RecoveryState { stable_tick_count: 0, ..s }
    }
}

/// The state after `n` consecutive ticks inside the envelopes.
pub open spec fn after_stable_ticks(s: RecoveryState, config: RecoveryConfig, n: nat) -> RecoveryState
    decreases n,
{
    if n == 0 {
        s
    } else {
        recovery_next(after_stable_ticks(s, config, (n - 1) as nat), config, true)
    }
}

/// Recovery completes exactly at the mandate's threshold: from a fresh entry into
/// recovery, fewer stable ticks than the threshold leave the state in recovery with
/// that many ticks counted, and the threshold-th stable tick recovers it.
pub proof fn lemma_recovers_at_threshold(s: RecoveryState, config: RecoveryConfig, n: nat)
    requires
        s.status == RecoveryStatus::InRecovery,
        s.stable_tick_count == 0,
        n <= recovery_threshold(config, mandate_view(s.violation_mandate)),
    ensures
        after_stable_ticks(s, config, n).stable_tick_count == n,
        after_stable_ticks(s, config, n).violation_mandate == s.violation_mandate,
        after_stable_ticks(s, config, n).entered_at == s.entered_at,
        after_stable_ticks(s, config, n).status == if n > 0 && n == recovery_threshold(config, mandate_view(s.violation_mandate)) {
            RecoveryStatus::Recovered
        } else {
            RecoveryStatus::InRecovery
        },
    decreases n,
{
    if n > 0 {
        lemma_recovers_at_threshold(s, config, (n - 1) as nat);
    }
}

/// Each mandate's threshold is its own configured number of stable ticks:
/// `TPL-008-1` the thermal ticks, `PRC-029-1` the frequency ticks, `CIP-012-2` the
/// crypto ticks, and any other mandate, or none, 1000.
pub proof fn lemma_mandate_thresholds(config: RecoveryConfig, other: Seq<char>)
    ensures
        recovery_threshold(config, Some("TPL-008-1"@)) == config.tpl008_thermal_stable_ticks,
        recovery_threshold(config, Some("PRC-029-1"@)) == config.prc029_freq_stable_ticks,
        recovery_threshold(config, Some("CIP-012-2"@)) == config.cip012_crypto_stable_ticks,
        other != "TPL-008-1"@ && other != "PRC-029-1"@ && other != "CIP-012-2"@
            ==> recovery_threshold(config, Some(other)) == 1000,
        recovery_threshold(config, None) == 1000,
{
    reveal_strlit("TPL-008-1");
    reveal_strlit("PRC-029-1");
    reveal_strlit("CIP-012-2");
    assert("TPL-008-1"@[0] != "PRC-029-1"@[0]);
    assert("TPL-008-1"@[0] != "CIP-012-2"@[0]);
    assert("PRC-029-1"@[0] != "CIP-012-2"@[0]);
}

/// Recovery from a `PRC-029-1` violation takes the configured frequency ticks:
/// from a fresh entry into recovery, fewer than `prc029_freq_stable_ticks` stable
/// ticks leave the state in recovery, and that many recover it.
pub proof fn lemma_prc029_recovery(s: RecoveryState, config: RecoveryConfig, n: nat)
    requires
        s.status == RecoveryStatus::InRecovery,
        s.stable_tick_count == 0,
        mandate_view(s.violation_mandate) == Some("PRC-029-1"@),
        n <= config.prc029_freq_stable_ticks,
    ensures
        n < config.prc029_freq_stable_ticks ==> after_stable_ticks(s, config, n).status
            == RecoveryStatus::InRecovery,
        n > 0 && n == config.prc029_freq_stable_ticks ==> after_stable_ticks(s, config, n).status
            == RecoveryStatus::Recovered,
{
    lemma_mandate_thresholds(config, Seq::empty());
    lemma_recovers_at_threshold(s, config, n);
}

/// One recovery tick. Outside recovery nothing changes. While the envelopes hold
/// (`envelope_ok`) a stable tick is counted, and once the count reaches the
/// mandate's threshold the state becomes `Recovered` and a testament is returned;
/// a tick outside the envelopes resets the count.
pub fn advance_recovery(recovery: &mut RecoveryState, config: &RecoveryConfig, envelope_ok: bool, timestamp_us: u64) -> (res: Option<RecoveryTestament>)
    requires
        old(recovery).stable_tick_count < u64::MAX,
    ensures
        *final(recovery) == recovery_next(*old(recovery), *config, envelope_ok),
        final(recovery).violation_mandate == old(recovery).violation_mandate,
        final(recovery).entered_at == old(recovery).entered_at,
        old(recovery).status == RecoveryStatus::Nominal ==> res is None && *final(recovery)
            == *old(recovery),
        old(recovery).status != RecoveryStatus::Nominal && !envelope_ok ==> res is None
            && final(recovery).stable_tick_count == 0 && final(recovery).status == old(
            recovery,
        ).status,
        old(recovery).status != RecoveryStatus::Nominal && envelope_ok ==> {
            let count = (old(recovery).stable_tick_count + 1) as u64;
            let done = count >= recovery_threshold(*config, mandate_view(old(recovery).violation_mandate));
            &&& final(recovery).stable_tick_count == count
            &&& final(recovery).status == if done {
                RecoveryStatus::Recovered
            } else {
                old(recovery).status
            }
            &&& res is Some == done
            &&& done ==> {
                let t = res->0;
                &&& t.mandate@ == match old(recovery).violation_mandate {
                    Some(m) => m@,
                    None => Seq::<char>::empty(),
                }
                &&& t.violation_tick == old(recovery).entered_at
                &&& t.recovery_tick == timestamp_us
                &&& t.stable_ticks == count
            }
        },
{
    if recovery.status == RecoveryStatus::Nominal {
        return None;
    }
    if envelope_ok {
        recovery.stable_tick_count = recovery.stable_tick_count + 1;
        let threshold = threshold_for(config, &recovery.violation_mandate);
        if recovery.stable_tick_count >= threshold {
            recovery.status = RecoveryStatus::Recovered;
            let mandate = match &recovery.violation_mandate {
                Some(m) => m.clone(),
                None => String::new(),
            };
            return Some(
                RecoveryTestament {
                    mandate,
                    violation_tick: recovery.entered_at,
                    recovery_tick: timestamp_us,
                    stable_ticks: recovery.stable_tick_count,
                },
            );
        }
    } else {
        recovery.stable_tick_count = 0;
    }
    None
}

/// Enters recovery from a violation of `mandate` at `timestamp_us`.
pub fn enter_recovery(recovery: &mut RecoveryState, mandate: &str, timestamp_us: u64)
    ensures
        final(recovery).status == RecoveryStatus::InRecovery,
        mandate_view(final(recovery).violation_mandate) == Some(mandate@),
        final(recovery).stable_tick_count == 0,
        final(recovery).entered_at == timestamp_us,
{
    recovery.status = RecoveryStatus::InRecovery;
    recovery.violation_mandate = Some(String::from_str(mandate));
    recovery.stable_tick_count = 0;
    recovery.entered_at = timestamp_us;
}

/// Whether recovery is under way.
pub fn in_recovery(recovery: &RecoveryState) -> (res: bool)
    ensures
        res == (recovery.status == RecoveryStatus::InRecovery),
{
    recovery.status == RecoveryStatus::InRecovery
}

/// `Recovery from <mandate>: <n> ticks in recovery, stabilized at tick <t>`.
pub fn recovery_narrative(testament: &RecoveryTestament) -> (res: String)
    ensures
        res@ == "Recovery from "@ + testament.mandate@ + ": "@ + decimal(testament.stable_ticks as nat)
            + " ticks in recovery, stabilized at tick "@ + decimal(testament.recovery_tick as nat),
{
    let mut s = String::from_str("Recovery from ");
    push_str(&mut s, testament.mandate.as_str());
    push_str(&mut s, ": ");
    push_decimal(&mut s, testament.stable_ticks as u128);
    push_str(&mut s, " ticks in recovery, stabilized at tick ");
    push_decimal(&mut s, testament.recovery_tick as u128);
    s
}

} // verus!
