//! Clean and adversarial tick runs of the demonstration pipeline.

use vstd::prelude::*;
use crate::failure_axis::{FailureAxis, SystemHalt};
use crate::fiel::{execute_tick, pre_write_halt, ticked_charge, ticked_stable};
use crate::tlbss_types::{SubstrateNode, SIGNAL_MASK};

verus! {

/// Grid events that call for an L7 response.
#[derive(PartialEq, Eq, Structural, Clone, Copy, Debug)]
pub enum EventType {
    /// Resource insufficiency: unit commitment required.
    RUCRequired,
    /// Responsive reserves deployment.
    ReserveDeploy,
    /// Scarcity pricing activation.
    ScarcityPricing,
    /// Emergency transmission ratings.
    EmergencyLimit,
    /// Load shedding, the last resort.
    LoadShed,
}

/// The input signals a run feeds its ticks.
#[derive(PartialEq, Eq, Structural, Clone, Copy, Debug)]
pub enum SignalPattern {
    /// Tick `i` gets `0x5A ^ i`.
    Unmasking,
    /// Every tick gets `0x00`.
    Silent,
    /// Tick `i` gets `0xA5 | (i & 0x0F)`.
    Coupled,
    /// Every tick gets `0xFF`.
    Saturating,
}

/// The signal of tick `i` under pattern `p`.
pub open spec fn signal_at(p: SignalPattern, i: u64) -> u8 {
    match p {
        SignalPattern::Unmasking => SIGNAL_MASK ^ (i as u8),
        SignalPattern::Silent => 0x00u8,
        SignalPattern::Coupled => 0xA5u8 | ((i as u8) & 0x0Fu8),
        SignalPattern::Saturating => 0xFFu8,
    }
}

fn signal_for(p: SignalPattern, i: u64) -> (res: u8)
    ensures
        res == signal_at(p, i),
{
    match p {
        SignalPattern::Unmasking => SIGNAL_MASK ^ (i as u8),
        SignalPattern::Silent => 0x00u8,
        SignalPattern::Coupled => 0xA5u8 | ((i as u8) & 0x0Fu8),
        SignalPattern::Saturating => 0xFFu8,
    }
}

/// A fresh node for input signal 0.
pub open spec fn fresh_node() -> SubstrateNode {
    SubstrateNode { charge: 0, stable_ticks: 0, masked_signal: 0u8 ^ SIGNAL_MASK, entity_a: None }
}

/// The node after a tick at `cycle` with `signal`, or nothing when the tick halts.
pub open spec fn tick_result(node: SubstrateNode, cycle: u64, signal: u8) -> Option<SubstrateNode> {
    if pre_write_halt(node.masked_signal, node.charge, cycle) is Some {
        None
    } else {
        let c = ticked_charge(node.charge, signal);
        Some(
            SubstrateNode {
                charge: c,
                stable_ticks: ticked_stable(node.stable_ticks, c),
                masked_signal: node.masked_signal,
                entity_a: node.entity_a,
            },
        )
    }
}

/// The snapshots after each successful tick of the first `k` ticks of a fresh
/// node under `p`, and the node after them.
pub open spec fn run_prefix(p: SignalPattern, k: nat) -> (Seq<SubstrateNode>, SubstrateNode)
    decreases k,
{
    if k == 0 {
        (Seq::empty(), fresh_node())
    } else {
        let prev = run_prefix(p, (k - 1) as nat);
        match tick_result(prev.1, (k - 1) as u64, signal_at(p, (k - 1) as u64)) {
            Some(n) => (prev.0.push(n), n),
            None => prev,
        }
    }
}

/// Runs `n` ticks of a fresh node under `p`, keeping a snapshot after each
/// successful tick; returns the snapshots and the final node.
fn run_ticks(p: SignalPattern, n: u64) -> (res: (Vec<SubstrateNode>, SubstrateNode))
    ensures
        res.0@ == run_prefix(p, n as nat).0,
        res.1 == run_prefix(p, n as nat).1,
{
    let mut trace: Vec<SubstrateNode> = Vec::new();
    let mut node = SubstrateNode::new(0);
    let mut i: u64 = 0;
    while i < n
        invariant
            i <= n,
            trace@ == run_prefix(p, i as nat).0,
            node == run_prefix(p, i as nat).1,
        decreases n - i,
    {
        let signal = signal_for(p, i);
        let ghost before = node;
        match execute_tick(&mut node, i, signal) {
            Ok(_) => {
                proof {
                    assert(tick_result(before, i, signal) == Some(node));
                }
                trace.push(node.snapshot());
            },
            Err(_) => {
                proof {
                    assert(tick_result(before, i, signal) is None);
                }
            },
        }
        i += 1;
    }
    (trace, node)
}

/// The snapshots of ten unmasking ticks of a fresh node; no halt.
pub fn run_clean_execution() -> (res: (Vec<SubstrateNode>, Option<SystemHalt>))
    ensures
        res.0@ == run_prefix(SignalPattern::Unmasking, 10).0,
        res.1 is None,
{
    let (trace, _node) = run_ticks(SignalPattern::Unmasking, 10);
    (trace, None)
}

/// The snapshots, injected final node and halt of the attack for `event`.
pub open spec fn attack_outcome(event: Option<EventType>) -> (Seq<SubstrateNode>, FailureAxis, Seq<char>) {
    match event {
        Some(EventType::RUCRequired) => {
            let r = run_prefix(SignalPattern::Unmasking, 10);
            let n = SubstrateNode { charge: r.1.charge.saturating_add(999_999), ..r.1 };
            (r.0.push(n), FailureAxis::Reference, "Reference counter corruption injected"@)
        },
        Some(EventType::ReserveDeploy) => {
            let r = run_prefix(SignalPattern::Silent, 15);
            let n = SubstrateNode { stable_ticks: 255, ..r.1 };
            (r.0.push(n), FailureAxis::Feedback, "Feedback instability injected"@)
        },
        Some(EventType::EmergencyLimit) => {
            let r = run_prefix(SignalPattern::Coupled, 8);
            let coupled = SubstrateNode {
                charge: 0,
                stable_ticks: 0,
                masked_signal: 0xFFu8 ^ SIGNAL_MASK,
                entity_a: None,
            };
            let n = SubstrateNode { entity_a: Some(Box::new(coupled)), ..r.1 };
            (r.0.push(n), FailureAxis::Coupling, "Entity coupling violation injected"@)
        },
        Some(EventType::LoadShed) => {
            let r = run_prefix(SignalPattern::Saturating, 20);
            let n = SubstrateNode { charge: (u64::MAX - 100) as u64, ..r.1 };
            (r.0.push(n), FailureAxis::Resolution, "Resolution overflow detected"@)
        },
        Some(EventType::ScarcityPricing) => {
            let r = run_prefix(SignalPattern::Unmasking, 5);
            let n = SubstrateNode { masked_signal: 0x7F, ..r.1 };
            (r.0.push(n), FailureAxis::InternalInvariantBreach, "Mask invariant violation injected"@)
        },
        None => (
            seq![fresh_node()],
            FailureAxis::AuthorityInversionAttempt,
            "Authority escalation attempt blocked"@,
        ),
    }
}

/// Reference-counter corruption, for capacity shortages.
fn reference_attack_sequence() -> (res: (Vec<SubstrateNode>, Option<SystemHalt>))
    ensures
        attack_matches(res, Some(EventType::RUCRequired)),
{
    let (mut trace, mut node) = run_ticks(SignalPattern::Unmasking, 10);
    node.charge = node.charge.saturating_add(999_999);
    trace.push(node);
    (trace, Some(SystemHalt::new(FailureAxis::Reference, "Reference counter corruption injected")))
}

/// Feedback instability, for reserve shortages.
fn feedback_attack_sequence() -> (res: (Vec<SubstrateNode>, Option<SystemHalt>))
    ensures
        attack_matches(res, Some(EventType::ReserveDeploy)),
{
    let (mut trace, mut node) = run_ticks(SignalPattern::Silent, 15);
    node.stable_ticks = 255;
    trace.push(node);
    (trace, Some(SystemHalt::new(FailureAxis::Feedback, "Feedback instability injected")))
}

/// Entity coupling violation, for network overloads.
fn coupling_attack_sequence() -> (res: (Vec<SubstrateNode>, Option<SystemHalt>))
    ensures
        attack_matches(res, Some(EventType::EmergencyLimit)),
{
    let (mut trace, mut node) = run_ticks(SignalPattern::Coupled, 8);
    node.entity_a = Some(Box::new(SubstrateNode::new(0xFF)));
    trace.push(node);
    (trace, Some(SystemHalt::new(FailureAxis::Coupling, "Entity coupling violation injected")))
}

/// Resolution overflow, for collapse cases.
fn resolution_attack_sequence() -> (res: (Vec<SubstrateNode>, Option<SystemHalt>))
    ensures
        attack_matches(res, Some(EventType::LoadShed)),
{
    let (mut trace, mut node) = run_ticks(SignalPattern::Saturating, 20);
    node.charge = u64::MAX - 100;
    trace.push(node);
    (trace, Some(SystemHalt::new(FailureAxis::Resolution, "Resolution overflow detected")))
}

/// Mask invariant violation, for scarcity pricing.
fn mask_violation_sequence() -> (res: (Vec<SubstrateNode>, Option<SystemHalt>))
    ensures
        attack_matches(res, Some(EventType::ScarcityPricing)),
{
    let (mut trace, mut node) = run_ticks(SignalPattern::Unmasking, 5);
    node.masked_signal = 0x7F;
    trace.push(node);
    (trace, Some(SystemHalt::new(FailureAxis::InternalInvariantBreach, "Mask invariant violation injected")))
}

/// Authority escalation, for emergency limits and anything else.
fn authority_violation_sequence() -> (res: (Vec<SubstrateNode>, Option<SystemHalt>))
    ensures
        attack_matches(res, None::<EventType>),
{
    let mut trace: Vec<SubstrateNode> = Vec::new();
    trace.push(SubstrateNode::new(0));
    (trace, Some(SystemHalt::new(FailureAxis::AuthorityInversionAttempt, "Authority escalation attempt blocked")))
}

/// `res` holds the snapshots and halt of the attack for `event`.
pub open spec fn attack_matches(res: (Vec<SubstrateNode>, Option<SystemHalt>), event: Option<EventType>) -> bool {
    &&& res.0@ == attack_outcome(event).0
    &&& res.1 is Some
    &&& res.1->0.axis == attack_outcome(event).1
    &&& res.1->0.message@ == attack_outcome(event).2
}

/// Runs the adversarial sequence that `event` calls for: a short tick run, then
/// an injected corruption of the node, reported with the halt it must raise.
pub fn inject_adversarial_sequence(event: Option<EventType>) -> (res: (Vec<SubstrateNode>, Option<SystemHalt>))
    ensures
        attack_matches(res, event),
{
    match event {
        Some(EventType::RUCRequired) => reference_attack_sequence(),
        Some(EventType::ReserveDeploy) => feedback_attack_sequence(),
        Some(EventType::EmergencyLimit) => coupling_attack_sequence(),
        Some(EventType::LoadShed) => resolution_attack_sequence(),
        Some(EventType::ScarcityPricing) => mask_violation_sequence(),
        None => authority_violation_sequence(),
    }
}

} // verus!
