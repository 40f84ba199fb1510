//! The canonical reference trace and the checks that a run reproduces it.

use vstd::prelude::*;
use crate::failure_axis::{FailureAxis, SystemHalt};
use crate::tlbss_types::{SubstrateNode, SIGNAL_MASK};
use crate::fiel::halt_matches;

verus! {

/// Reference conditions of a deterministic run and the charge it must end with.
pub struct ComplianceTrace {
    pub input_signal: u8,
    pub mask_constant: u8,
    pub masked_contribution: u64,
    pub l7_threshold: u64,
    pub total_ticks: u64,
    pub expected_final_charge: u64,
}

impl ComplianceTrace {
    /// The reference run: signal 50 masked with `0x5A` (a contribution of 104 per
    /// tick), threshold 100, 100 ticks, final charge 10400.
    pub fn canonical() -> (res: Self)
        ensures
            res.input_signal == 50,
            res.mask_constant == SIGNAL_MASK,
            res.masked_contribution == 104,
            res.l7_threshold == 100,
            res.total_ticks == 100,
            res.expected_final_charge == 10400,
    {
        let input_signal: u8 = 50;
        let mask_constant: u8 = SIGNAL_MASK;
        let masked: u8 = input_signal ^ mask_constant;
        assert(50u8 ^ 0x5Au8 == 104u8) by (bit_vector);
        ComplianceTrace {
            input_signal,
            mask_constant,
            masked_contribution: masked as u64,
            l7_threshold: 100,
            total_ticks: 100,
            expected_final_charge: 10400,
        }
    }
}

/// The halt for a charge other than `contribution * ticks`.
pub open spec fn charge_halt(charge: u64, ticks: u64, contribution: u64) -> Option<(FailureAxis, Seq<char>)> {
    if charge != contribution * ticks {
        Some((FailureAxis::InternalInvariantBreach, "Charge determinism violation"@))
    } else {
        None
    }
}

/// The halt for a stable-tick count below `min(ticks, 255)`.
pub open spec fn stability_halt(stable_ticks: u8, ticks: u64) -> Option<(FailureAxis, Seq<char>)> {
    let expected = if ticks >= 255 {
        255
    } else {
        ticks
    };
    if stable_ticks < expected {
        Some((FailureAxis::InternalInvariantBreach, "Stability counter violation"@))
    } else {
        None
    }
}

/// Halts unless the charge is exactly the trace's contribution times the tick count.
pub fn verify_charge_determinism(runtime_charge: u64, tick_count: u64, trace: &ComplianceTrace) -> (res: Result<(), SystemHalt>)
    requires
        trace.masked_contribution * tick_count <= u64::MAX,
    ensures
        halt_matches(res, charge_halt(runtime_charge, tick_count, trace.masked_contribution)),
{
    let expected = trace.masked_contribution * tick_count;
    if runtime_charge != expected {
        return Err(SystemHalt::new(FailureAxis::InternalInvariantBreach, "Charge determinism violation"));
    }
    Ok(())
}

/// Halts when fewer than `min(tick_count, 255)` stable ticks were counted.
pub fn verify_stability_counter(runtime_stable_ticks: u8, tick_count: u64) -> (res: Result<(), SystemHalt>)
    ensures
        halt_matches(res, stability_halt(runtime_stable_ticks, tick_count)),
{
    let expected_min: u8 = if tick_count >= 255 {
        255u8
    } else {
        tick_count as u8
    };
    if runtime_stable_ticks < expected_min {
        return Err(SystemHalt::new(FailureAxis::InternalInvariantBreach, "Stability counter violation"));
    }
    Ok(())
}

/// Checks the node's charge, then its stable-tick count, against the trace.
pub fn enforce_canonical_trace(node: &SubstrateNode, ticks_executed: u64, trace: &ComplianceTrace) -> (res: Result<(), SystemHalt>)
    requires
        trace.masked_contribution * ticks_executed <= u64::MAX,
    ensures
        halt_matches(
            res,
            match charge_halt(node.charge, ticks_executed, trace.masked_contribution) {
                Some(h) => Some(h),
                None => stability_halt(node.stable_ticks, ticks_executed),
            },
        ),
{
    match verify_charge_determinism(node.charge, ticks_executed, trace) {
        Err(h) => return Err(h),
        Ok(_) => {},
    }
    verify_stability_counter(node.stable_ticks, ticks_executed)
}

} // verus!

verus! {

/// The node after `n` ticks of a fresh node with constant input `signal` (cycles
/// numbered from 0), or nothing if some tick halts.
pub open spec fn constant_run(signal: u8, n: nat) -> Option<SubstrateNode>
    decreases n,
{
    if n == 0 {
        Some(crate::demo_pipeline::fresh_node())
    } else {
        match constant_run(signal, (n - 1) as nat) {
            Some(node) => crate::demo_pipeline::tick_result(node, (n - 1) as u64, signal),
            None => None,
        }
    }
}

/// Charge determinism: while the charge cannot saturate, `n` ticks with constant
/// input `signal` from a fresh node never halt and leave the charge at `n` times
/// the masked contribution, which is what `verify_charge_determinism` demands.
pub proof fn lemma_constant_run_charge(signal: u8, n: nat)
    requires
        n * 256 < u64::MAX,
    ensures
        constant_run(signal, n) is Some,
        constant_run(signal, n)->0.charge == n * ((signal ^ SIGNAL_MASK) as int),
        constant_run(signal, n)->0.masked_signal == SIGNAL_MASK,
    decreases n,
{
    assert(0u8 ^ 0x5Au8 == 0x5Au8) by (bit_vector);
    assert(0x5Au8 ^ 0x5Au8 == 0u8) by (bit_vector);
    if n > 0 {
        lemma_constant_run_charge(signal, (n - 1) as nat);
        let prev = constant_run(signal, (n - 1) as nat)->0;
        let c = (signal ^ SIGNAL_MASK) as int;
        assert(c < 256) by {
            assert((signal ^ 0x5Au8) <= 255u8) by (bit_vector);
        }
        assert((n - 1) * c <= (n - 1) * 256) by (nonlinear_arith)
            requires
                c < 256,
                n >= 1,
        ;
        assert(n * c == (n - 1) * c + c) by (nonlinear_arith);
        assert(prev.charge + c <= u64::MAX);
        assert(crate::fiel::pre_write_halt(prev.masked_signal, prev.charge, (n - 1) as u64) is None);
    }
}

} // verus!
