//! Failure axes of deterministic halts, their halt codes and severities.

use vstd::prelude::*;

verus! {

/// The class of integrity violation behind a deterministic halt.
#[derive(PartialEq, Eq, Structural, Clone, Copy, Debug)]
pub enum FailureAxis {
    /// Internal state corruption or logic violation.
    InternalInvariantBreach,
    /// Adversarial fault or replay detected.
    ExternalInjectionDetected,
    /// PTP synchronization loss or clock anomaly (halt `HALT_0xABF3`).
    TimingDriftFailure,
    /// Stratum degradation or permission violation.
    AuthorityInversionAttempt,
    /// Reference timing lost or corrupted.
    Reference,
    /// Feedback loop instability.
    Feedback,
    /// Coupling violation between subsystems.
    Coupling,
    /// Clock resolution inadequate for deterministic execution.
    Resolution,
    /// Geometry axiom 6/7 misalignment.
    Axiom6_7Misalignment,
    /// TPM unavailable or uninitialized.
    TpmUnavailable,
    /// Unauthorized operational mode or capability.
    UnauthorizedMode,
}

/// A halt: its failure axis and a diagnostic message.
#[derive(Clone, Debug)]
pub struct SystemHalt {
    pub axis: FailureAxis,
    pub message: String,
}

/// The operator-facing halt code of an axis.
pub open spec fn halt_code_of(axis: FailureAxis) -> Seq<char> {
    match axis {
        FailureAxis::TimingDriftFailure => "HALT_0xABF3"@,
        FailureAxis::InternalInvariantBreach => "HALT_0xFEED"@,
        FailureAxis::ExternalInjectionDetected => "HALT_0xBADF"@,
        FailureAxis::AuthorityInversionAttempt => "HALT_0xDEAD"@,
        FailureAxis::Reference => "HALT_0x0001"@,
        FailureAxis::Feedback => "HALT_0x0002"@,
        FailureAxis::Coupling => "HALT_0x0003"@,
        FailureAxis::Resolution => "HALT_0x0004"@,
        FailureAxis::Axiom6_7Misalignment => "HALT_0x0005"@,
        FailureAxis::TpmUnavailable => "HALT_0x0006"@,
        FailureAxis::UnauthorizedMode => "HALT_0x0007"@,
    }
}

/// The severity class of an axis.
pub open spec fn severity_of(axis: FailureAxis) -> Seq<char> {
    match axis {
        FailureAxis::TimingDriftFailure
        | FailureAxis::InternalInvariantBreach
        | FailureAxis::ExternalInjectionDetected => "Critical"@,
        FailureAxis::AuthorityInversionAttempt | FailureAxis::Axiom6_7Misalignment => "High"@,
        FailureAxis::Reference | FailureAxis::Feedback | FailureAxis::Coupling => "Medium"@,
        FailureAxis::Resolution | FailureAxis::TpmUnavailable | FailureAxis::UnauthorizedMode => "Low"@,
    }
}

impl SystemHalt {
    /// A halt on `axis` with a copy of `message`.
    pub fn new(axis: FailureAxis, message: &str) -> (res: Self)
        ensures
            res.axis == axis,
            res.message@ == message@,
    {
        SystemHalt { axis, message: String::from_str(message) }
    }

    /// A halt on `axis` owning `message`.
    pub fn with_formatted(axis: FailureAxis, message: String) -> (res: Self)
        ensures
            res.axis == axis,
            res.message@ == message@,
    {
        SystemHalt { axis, message }
    }

    /// The halt code shown to operators.
    pub fn halt_code(&self) -> (res: String)
        ensures
            res@ == halt_code_of(self.axis),
    {
        let code = match self.axis {
            FailureAxis::TimingDriftFailure => "HALT_0xABF3",
            FailureAxis::InternalInvariantBreach => "HALT_0xFEED",
            FailureAxis::ExternalInjectionDetected => "HALT_0xBADF",
            FailureAxis::AuthorityInversionAttempt => "HALT_0xDEAD",
            FailureAxis::Reference => "HALT_0x0001",
            FailureAxis::Feedback => "HALT_0x0002",
            FailureAxis::Coupling => "HALT_0x0003",
            FailureAxis::Resolution => "HALT_0x0004",
            FailureAxis::Axiom6_7Misalignment => "HALT_0x0005",
            FailureAxis::TpmUnavailable => "HALT_0x0006",
            FailureAxis::UnauthorizedMode => "HALT_0x0007",
        };
        String::from_str(code)
    }

    /// The severity class: `Critical`, `High`, `Medium` or `Low`.
    pub fn severity(&self) -> (res: &'static str)
        ensures
            res@ == severity_of(self.axis),
    {
        match self.axis {
            FailureAxis::TimingDriftFailure
            | FailureAxis::InternalInvariantBreach
            | FailureAxis::ExternalInjectionDetected => "Critical",
            FailureAxis::AuthorityInversionAttempt | FailureAxis::Axiom6_7Misalignment => "High",
            FailureAxis::Reference | FailureAxis::Feedback | FailureAxis::Coupling => "Medium",
            FailureAxis::Resolution | FailureAxis::TpmUnavailable | FailureAxis::UnauthorizedMode => "Low",
        }
    }
}

} // verus!
