//! The kernel's control modes, the control signal each mode issues, and the
//! binary-state part of a substrate transition.

use vstd::prelude::*;
use crate::tlbss_types::BinaryState;

verus! {

/// The controller the kernel runs.
#[derive(PartialEq, Eq, Structural, Clone, Copy, Debug)]
pub enum ControlMode {
    Bayesian,
    Robust,
    Viability,
    Safe,
}

/// A control decision: halt, shed load, lock the state, and an optional drive command.
#[derive(PartialEq, Eq, Structural, Clone, Copy, Debug)]
pub struct ControlSignal {
    pub halt: bool,
    pub shed_load: bool,
    pub lock_state: bool,
    pub drive_command: Option<u8>,
}

impl Default for ControlSignal {
    fn default() -> (res: Self)
        ensures
            res == (ControlSignal { halt: false, shed_load: false, lock_state: false, drive_command: None }),
    {
        ControlSignal { halt: false, shed_load: false, lock_state: false, drive_command: None }
    }
}

/// The byte that identifies a mode in the execution fingerprint.
pub fn mode_id(mode: ControlMode) -> (res: u8)
    ensures
        res == match mode {
            ControlMode::Bayesian => 0u8,
            ControlMode::Robust => 1u8,
            ControlMode::Viability => 2u8,
            ControlMode::Safe => 3u8,
        },
{
    match mode {
        ControlMode::Bayesian => 0,
        ControlMode::Robust => 1,
        ControlMode::Viability => 2,
        ControlMode::Safe => 3,
    }
}

/// The Bayesian controller: drive forward, shedding load when confidence is low.
pub fn bayesian_controller(low_confidence: bool) -> (res: ControlSignal)
    ensures
        res == (ControlSignal { halt: false, shed_load: low_confidence, lock_state: false, drive_command: Some(1u8) }),
{
    ControlSignal { halt: false, shed_load: low_confidence, lock_state: false, drive_command: Some(1) }
}

/// The robust controller: shed load and drive to zero.
pub fn robust_controller() -> (res: ControlSignal)
    ensures
        res == (ControlSignal { halt: false, shed_load: true, lock_state: false, drive_command: Some(0u8) }),
{
    ControlSignal { halt: false, shed_load: true, lock_state: false, drive_command: Some(0) }
}

/// The isolation controller: halt, shed, lock, no drive.
pub fn isolation_controller() -> (res: ControlSignal)
    ensures
        res == (ControlSignal { halt: true, shed_load: true, lock_state: true, drive_command: None }),
{
    ControlSignal { halt: true, shed_load: true, lock_state: true, drive_command: None }
}

/// A control signal is admissible when it does not halt.
pub fn admissible(candidate: &ControlSignal) -> (res: bool)
    ensures
        res == !candidate.halt,
{
    !candidate.halt
}

/// The nearest admissible signal: shed, lock and drive to zero without halting.
pub fn nearest_admissible() -> (res: ControlSignal)
    ensures
        res == (ControlSignal { halt: false, shed_load: true, lock_state: true, drive_command: Some(0u8) }),
{
    ControlSignal { halt: false, shed_load: true, lock_state: true, drive_command: Some(0) }
}

/// The viability controller: the robust signal when admissible, else the nearest
/// admissible one.
pub fn viability_controller() -> (res: ControlSignal)
    ensures
        res == robust_controller_signal(),
        !res.halt,
{
    let candidate = robust_controller();
    if admissible(&candidate) {
        candidate
    } else {
        nearest_admissible()
    }
}

/// The robust controller's signal.
pub open spec fn robust_controller_signal() -> ControlSignal {
    ControlSignal { halt: false, shed_load: true, lock_state: false, drive_command: Some(0u8) }
}

/// The signal of each mode (`low_confidence` only matters to the Bayesian one).
pub open spec fn control_of(mode: ControlMode, low_confidence: bool) -> ControlSignal {
    match mode {
        ControlMode::Bayesian => ControlSignal {
            halt: false,
            shed_load: low_confidence,
            lock_state: false,
            drive_command: Some(1u8),
        },
        ControlMode::Robust => robust_controller_signal(),
        ControlMode::Viability => robust_controller_signal(),
        ControlMode::Safe => ControlSignal { halt: true, shed_load: true, lock_state: true, drive_command: None },
    }
}

/// The control signal of `mode`.
pub fn control_for_mode(mode: ControlMode, low_confidence: bool) -> (res: ControlSignal)
    ensures
        res == control_of(mode, low_confidence),
{
    match mode {
        ControlMode::Bayesian => bayesian_controller(low_confidence),
        ControlMode::Robust => robust_controller(),
        ControlMode::Viability => viability_controller(),
        ControlMode::Safe => isolation_controller(),
    }
}

/// One binary axis of a substrate transition: held when the control holds it,
/// otherwise flipped by the low bit of the disturbance.
pub open spec fn next_binary(current: BinaryState, disturbance: u8, hold: bool) -> BinaryState {
    if hold {
        current
    } else {
        let bit = (if current == BinaryState::Zero { 0u8 } else { 1u8 } ^ disturbance) & 1u8;
        if bit == 0 {
            BinaryState::Zero
        } else {
            BinaryState::One
        }
    }
}

/// The next state of one binary axis.
pub fn next_binary_state(current: BinaryState, disturbance: u8, hold: bool) -> (res: BinaryState)
    ensures
        res == next_binary(current, disturbance, hold),
{
    if hold {
        return current;
    }
    let c = current.as_u8();
    let bit = (c ^ disturbance) & 1;
    assert(bit == 0 || bit == 1) by (bit_vector)
        requires
            bit == (c ^ disturbance) & 1u8,
    ;
    match BinaryState::from_u8(bit) {
        Some(b) => b,
        None => current,
    }
}

/// The three binary axes of a substrate state.
#[derive(PartialEq, Eq, Structural, Clone, Copy, Debug)]
pub struct SubstrateAxes {
    pub symbolic: BinaryState,
    pub cognitive: BinaryState,
    pub biological: BinaryState,
}

/// The bits a disturbance applies to each axis.
#[derive(PartialEq, Eq, Structural, Clone, Copy, Debug)]
pub struct AxisDisturbance {
    pub symbolic: u8,
    pub cognitive: u8,
    pub biological: u8,
}

/// The axes after a step under `control` and `disturbance`: a halt holds the
/// symbolic axis, shedding load holds the cognitive one, locking the state holds
/// the biological one; an axis not held takes the low bit of its own value xor
/// its disturbance bits.
pub open spec fn axes_after(s: SubstrateAxes, control: ControlSignal, disturbance: AxisDisturbance) -> SubstrateAxes {
    SubstrateAxes {
        symbolic: next_binary(s.symbolic, disturbance.symbolic, control.halt),
        cognitive: next_binary(s.cognitive, disturbance.cognitive, control.shed_load),
        biological: next_binary(s.biological, disturbance.biological, control.lock_state),
    }
}

impl SubstrateAxes {
    /// The binary part of the substrate transition.
    pub fn transition(&self, control: &ControlSignal, disturbance: &AxisDisturbance) -> (res: Self)
        ensures
            res == axes_after(*self, *control, *disturbance),
    {
        SubstrateAxes {
            symbolic: next_binary_state(self.symbolic, disturbance.symbolic, control.halt),
            cognitive: next_binary_state(self.cognitive, disturbance.cognitive, control.shed_load),
            biological: next_binary_state(self.biological, disturbance.biological, control.lock_state),
        }
    }
}

/// Fail-closed: the signal of the safe mode (halt, shed and lock) holds every
/// axis, whatever the disturbance.
pub proof fn lemma_safe_mode_holds_axes(s: SubstrateAxes, disturbance: AxisDisturbance, low_confidence: bool)
    ensures
        axes_after(s, control_of(ControlMode::Safe, low_confidence), disturbance) == s,
{
}

} // verus!
