//! Pre-write invariant checks and the deterministic tick of a substrate node.

use vstd::prelude::*;
use crate::failure_axis::{FailureAxis, SystemHalt};
use crate::tlbss_types::{SubstrateNode, SIGNAL_MASK};

verus! {

/// How a tick treats a node.
#[derive(PartialEq, Eq, Structural, Clone, Copy, Debug)]
pub enum TransitionType {
    NormalAccumulation,
    L7TransitionCandidate,
}

/// Checks the invariants that must hold before a node is written.
pub struct StateSentinel;

/// The halt, if any, that the pre-write checks raise for a node with mask byte
/// `masked_signal` and charge `charge` at cycle `cycle_index`: mask first, then
/// sequence, then charge boundary.
pub open spec fn pre_write_halt(masked_signal: u8, charge: u64, cycle_index: u64) -> Option<(FailureAxis, Seq<char>)> {
    if (masked_signal ^ SIGNAL_MASK) > 1 {
        Some((FailureAxis::InternalInvariantBreach, "Mask invariant violated"@))
    } else if cycle_index > u64::MAX / 2 {
        Some((FailureAxis::TimingDriftFailure, "Sequence overflow detected"@))
    } else if charge == u64::MAX {
        Some((FailureAxis::InternalInvariantBreach, "Charge overflow"@))
    } else {
        None
    }
}

/// `res` carries exactly the halt `h`.
pub open spec fn halt_matches(res: Result<(), SystemHalt>, h: Option<(FailureAxis, Seq<char>)>) -> bool {
    match res {
        Ok(_) => h is None,
        Err(e) => h == Some((e.axis, e.message@)),
    }
}

/// The transition a node with `stable_ticks` stable ticks is in.
pub open spec fn transition_of(stable_ticks: u8) -> TransitionType {
    if stable_ticks >= 3 {
        TransitionType::L7TransitionCandidate
    } else {
        TransitionType::NormalAccumulation
    }
}

/// The charge after a tick with input `signal`.
pub open spec fn ticked_charge(charge: u64, signal: u8) -> u64 {
    charge.saturating_add((signal ^ SIGNAL_MASK) as u64)
}

/// The stable-tick count after a tick that left charge `new_charge`.
pub open spec fn ticked_stable(stable_ticks: u8, new_charge: u64) -> u8 {
    if stable_ticks >= 3 || new_charge >= 100 {
        stable_ticks.saturating_add(1)
    } else {
        stable_ticks
    }
}

impl StateSentinel {
    /// Halts when the mask, sequence or charge-boundary invariant fails.
    pub fn validate_pre_write(node: &SubstrateNode, cycle_index: u64) -> (res: Result<(), SystemHalt>)
        ensures
            halt_matches(res, pre_write_halt(node.masked_signal, node.charge, cycle_index)),
    {
        Self::check_mask_invariant(node)?;
        Self::check_sequence_invariant(cycle_index)?;
        Self::check_boundary_invariant(node)?;
        Ok(())
    }

    fn check_mask_invariant(node: &SubstrateNode) -> (res: Result<(), SystemHalt>)
        ensures
            match res {
                Ok(_) => (node.masked_signal ^ SIGNAL_MASK) <= 1,
                Err(e) => (node.masked_signal ^ SIGNAL_MASK) > 1 && e.axis == FailureAxis::InternalInvariantBreach
                    && e.message@ == "Mask invariant violated"@,
            },
    {
        let unmasked = node.masked_signal ^ SIGNAL_MASK;
        if unmasked > 1 {
            return Err(SystemHalt::new(FailureAxis::InternalInvariantBreach, "Mask invariant violated"));
        }
        Ok(())
    }

    fn check_sequence_invariant(cycle_index: u64) -> (res: Result<(), SystemHalt>)
        ensures
            match res {
                Ok(_) => cycle_index <= u64::MAX / 2,
                Err(e) => cycle_index > u64::MAX / 2 && e.axis == FailureAxis::TimingDriftFailure
                    && e.message@ == "Sequence overflow detected"@,
            },
    {
        if cycle_index > u64::MAX / 2 {
            return Err(SystemHalt::new(FailureAxis::TimingDriftFailure, "Sequence overflow detected"));
        }
        Ok(())
    }

    fn check_boundary_invariant(node: &SubstrateNode) -> (res: Result<(), SystemHalt>)
        ensures
            match res {
                Ok(_) => node.charge != u64::MAX,
                Err(e) => node.charge == u64::MAX && e.axis == FailureAxis::InternalInvariantBreach
                    && e.message@ == "Charge overflow"@,
            },
    {
        if node.charge == u64::MAX {
            return Err(SystemHalt::new(FailureAxis::InternalInvariantBreach, "Charge overflow"));
        }
        Ok(())
    }
}

/// A node with three or more stable ticks is an L7 transition candidate.
pub fn classify_transition(node: &SubstrateNode) -> (res: TransitionType)
    ensures
        res == transition_of(node.stable_ticks),
{
    if node.stable_ticks >= 3 {
        TransitionType::L7TransitionCandidate
    } else {
        TransitionType::NormalAccumulation
    }
}

/// One tick: after the pre-write checks pass, the masked signal is added to the
/// charge (saturating) and the stable-tick count advances when the node was a
/// transition candidate or its charge reached 100. A halt leaves the node as it was.
pub fn execute_tick(node: &mut SubstrateNode, cycle_index: u64, signal: u8) -> (res: Result<(), SystemHalt>)
    ensures
        halt_matches(res, pre_write_halt(old(node).masked_signal, old(node).charge, cycle_index)),
        res is Err ==> *final(node) == *old(node),
        res is Ok ==> {
            &&& final(node).charge == ticked_charge(old(node).charge, signal)
            &&& final(node).stable_ticks == ticked_stable(
                old(node).stable_ticks,
                ticked_charge(old(node).charge, signal),
            )
            &&& final(node).masked_signal == old(node).masked_signal
            &&& final(node).entity_a == old(node).entity_a
        },
{
    let transition = classify_transition(node);
    match StateSentinel::validate_pre_write(node, cycle_index) {
        Err(h) => return Err(h),
        Ok(_) => {},
    }
    let masked_contribution = (signal ^ SIGNAL_MASK) as u64;
    match transition {
        TransitionType::NormalAccumulation => {
            node.charge = node.charge.saturating_add(masked_contribution);
            if node.charge >= 100 {
                node.stable_ticks = node.stable_ticks.saturating_add(1);
            }
        },
        TransitionType::L7TransitionCandidate => {
            node.charge = node.charge.saturating_add(masked_contribution);
            node.stable_ticks = node.stable_ticks.saturating_add(1);
        },
    }
    Ok(())
}

} // verus!
