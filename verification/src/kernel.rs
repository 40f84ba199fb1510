//! The supervisory kernel's authority levels and operating states.

use vstd::prelude::*;

verus! {

/// What the kernel did to a command.
#[derive(PartialEq, Eq, Structural, Clone, Copy, Debug)]
pub enum KernelAuthority {
    /// No intervention; the setpoint passes through unmodified.
    PassThrough,
    /// A hard clamp at a physical limit.
    Clamp,
    /// Smoothed by a rate limiter.
    RateLimit,
    /// Control handed back to native droop mode.
    FallbackToDroop,
}

/// The kernel's operating state.
#[derive(PartialEq, Eq, Structural, Clone, Copy, Debug)]
pub enum KernelState {
    /// Commands are validated and forwarded.
    Normal,
    /// A mild violation: outputs are rate-limited or clamped.
    Degraded,
    /// A major incoherence: commands are ignored and the last valid setpoint held.
    Incoherent,
    /// Emergency fallback to the plant's own droop and protection.
    Emergency,
}

} // verus!
