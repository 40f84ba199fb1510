//! Adversarial attack vectors against a substrate node and their outcomes.

use vstd::prelude::*;
use crate::failure_axis::{FailureAxis, SystemHalt};
use crate::tlbss_types::{SubstrateNode, SIGNAL_MASK};
use crate::fiel::halt_matches;
use crate::text::{decimal, push_str, push_decimal};

verus! {

/// The observable state of a node at a tick.
#[derive(Clone, Copy, Debug)]
pub struct TickState {
    pub tick: u64,
    pub charge: u64,
    pub stable_ticks: u8,
}

/// Why an attack vector was stopped.
#[derive(PartialEq, Eq, Structural, Clone, Copy, Debug)]
pub enum HaltReason {
    StateCorruptionDetected,
    AuthorityEscalationAttempt,
    MaskBypassDetected,
    TemporalSkipExploit,
}

impl TickState {
    /// The state of `node` at `tick`.
    pub fn from_node(tick: u64, node: &SubstrateNode) -> (res: Self)
        ensures
            res.tick == tick,
            res.charge == node.charge,
            res.stable_ticks == node.stable_ticks,
    {
        TickState { tick, charge: node.charge, stable_ticks: node.stable_ticks }
    }
}

/// The low byte of `value`, unmasked, is 0 or 1.
pub open spec fn mask_holds(value: u64) -> bool {
    (((value & 0xFF) as u8) ^ SIGNAL_MASK) <= 1
}

fn mask_invariant_holds(value: u64) -> (res: bool)
    ensures
        res == mask_holds(value),
{
    let low = (value & 0xFF) as u8;
    (low ^ SIGNAL_MASK) <= 1
}

/// Adds 999 to the charge (wrapping) and halts when the charge's low byte no
/// longer satisfies the mask invariant. The node keeps the corrupted charge.
pub fn vector_alpha_state_corruption(node: &mut SubstrateNode) -> (res: Result<(), SystemHalt>)
    ensures
        final(node).charge == old(node).charge.wrapping_add(999),
        final(node).stable_ticks == old(node).stable_ticks,
        final(node).masked_signal == old(node).masked_signal,
        final(node).entity_a == old(node).entity_a,
        halt_matches(
            res,
            if mask_holds(final(node).charge) {
                None
            } else {
                Some((FailureAxis::ExternalInjectionDetected, "State corruption attempt detected"@))
            },
        ),
{
    node.charge = node.charge.wrapping_add(999);
    if !mask_invariant_holds(node.charge) {
        return Err(SystemHalt::new(FailureAxis::ExternalInjectionDetected, "State corruption attempt detected"));
    }
    Ok(())
}

/// Authority escalation is always refused.
pub fn vector_beta_authority_escalation() -> (res: Result<(), SystemHalt>)
    ensures
        halt_matches(
            res,
            Some((FailureAxis::AuthorityInversionAttempt, "Authority escalation blocked"@)),
        ),
{
    Err(SystemHalt::new(FailureAxis::AuthorityInversionAttempt, "Authority escalation blocked"))
}

/// Flips the mask bits of `charge` and halts unless the result satisfies the mask
/// invariant. The flipped value stays.
pub fn vector_gamma_mask_bypass(charge: &mut u64) -> (res: Result<(), SystemHalt>)
    ensures
        *final(charge) == *old(charge) ^ (SIGNAL_MASK as u64),
        halt_matches(
            res,
            if mask_holds(*final(charge)) {
                None
            } else {
                Some((FailureAxis::ExternalInjectionDetected, "Mask bypass attempt detected"@))
            },
        ),
{
    *charge = (*charge) ^ (SIGNAL_MASK as u64);
    if mask_invariant_holds(*charge) {
        Ok(())
    } else {
        Err(SystemHalt::new(FailureAxis::ExternalInjectionDetected, "Mask bypass attempt detected"))
    }
}

/// Advances the stable-tick count by ten (saturating); a `u8` count cannot pass
/// 255, so the skip is never reported.
pub fn vector_delta_temporal_skip(node: &mut SubstrateNode) -> (res: Result<(), SystemHalt>)
    ensures
        final(node).stable_ticks == old(node).stable_ticks.saturating_add(10),
        final(node).charge == old(node).charge,
        final(node).masked_signal == old(node).masked_signal,
        final(node).entity_a == old(node).entity_a,
        res is Ok,
{
    node.stable_ticks = node.stable_ticks.saturating_add(10);
    Ok(())
}

/// Runs the four vectors in order (alpha, beta, gamma on the charge, delta) on
/// the same node and returns their outcomes in that order.
pub fn run_all_vectors(node: &mut SubstrateNode) -> (res: Vec<Result<(), SystemHalt>>)
    ensures
        res@.len() == 4,
        ({
            let c1 = old(node).charge.wrapping_add(999);
            let c2 = c1 ^ (SIGNAL_MASK as u64);
            &&& halt_matches(
                res@[0],
                if mask_holds(c1) {
                    None
                } else {
                    Some((FailureAxis::ExternalInjectionDetected, "State corruption attempt detected"@))
                },
            )
            &&& halt_matches(
                res@[1],
                Some((FailureAxis::AuthorityInversionAttempt, "Authority escalation blocked"@)),
            )
            &&& halt_matches(
                res@[2],
                if mask_holds(c2) {
                    None
                } else {
                    Some((FailureAxis::ExternalInjectionDetected, "Mask bypass attempt detected"@))
                },
            )
            &&& res@[3] is Ok
            &&& final(node).charge == c2
            &&& final(node).stable_ticks == old(node).stable_ticks.saturating_add(10)
            &&& final(node).masked_signal == old(node).masked_signal
            &&& final(node).entity_a == old(node).entity_a
        }),
{
    let a = vector_alpha_state_corruption(node);
    let b = vector_beta_authority_escalation();
    let c = vector_gamma_mask_bypass(&mut node.charge);
    let d = vector_delta_temporal_skip(node);
    let mut out: Vec<Result<(), SystemHalt>> = Vec::new();
    out.push(a);
    out.push(b);
    out.push(c);
    out.push(d);
    out
}

/// Counts of attack vectors run, blocked and escaped.
pub struct AdversarialReport {
    pub total_vectors: usize,
    pub successful_blocks: usize,
    pub failed_blocks: usize,
}

impl AdversarialReport {
    /// A report of `total` vectors, `blocked` blocked and `failed` escaped.
    pub fn new(total: usize, blocked: usize, failed: usize) -> (res: Self)
        ensures
            res.total_vectors == total,
            res.successful_blocks == blocked,
            res.failed_blocks == failed,
    {
        AdversarialReport { total_vectors: total, successful_blocks: blocked, failed_blocks: failed }
    }

    /// `Adversarial Report: <total> total, <blocked> blocked, <failed> escaped`.
    pub fn summary(&self) -> (res: String)
        ensures
            res@ == "Adversarial Report: "@ + decimal(self.total_vectors as nat) + " total, "@
                + decimal(self.successful_blocks as nat) + " blocked, "@ + decimal(
                self.failed_blocks as nat,
            ) + " escaped"@,
    {
        let mut s = String::from_str("Adversarial Report: ");
        push_decimal(&mut s, self.total_vectors as u128);
        push_str(&mut s, " total, ");
        push_decimal(&mut s, self.successful_blocks as u128);
        push_str(&mut s, " blocked, ");
        push_decimal(&mut s, self.failed_blocks as u128);
        push_str(&mut s, " escaped");
        s
    }
}

} // verus!
