//! Regulatory mandates behind policy violations, legal citations and governance modes.

use vstd::prelude::*;
use crate::text::push_str;

verus! {

/// A policy violation class.
#[derive(PartialEq, Eq, Structural, Clone, Copy, Debug)]
pub enum PolicyViolation {
    ThermalDerating,
    FrequencyRideThrough,
    CryptoAuthFailure,
    UnknownCondition,
}

/// The NERC standard a violation class cites.
pub open spec fn citation_of(v: PolicyViolation) -> Seq<char> {
    match v {
        PolicyViolation::ThermalDerating => "TPL-008-1"@,
        PolicyViolation::FrequencyRideThrough => "PRC-029-1"@,
        PolicyViolation::CryptoAuthFailure => "CIP-012-2"@,
        PolicyViolation::UnknownCondition => "UNKNOWN"@,
    }
}

impl PolicyViolation {
    /// `TPL-008-1`, `PRC-029-1`, `CIP-012-2` or `UNKNOWN`.
    pub fn citation(&self) -> (res: &'static str)
        ensures
            res@ == citation_of(*self),
    {
        match self {
            PolicyViolation::ThermalDerating => "TPL-008-1",
            PolicyViolation::FrequencyRideThrough => "PRC-029-1",
            PolicyViolation::CryptoAuthFailure => "CIP-012-2",
            PolicyViolation::UnknownCondition => "UNKNOWN",
        }
    }
}

/// A legal citation: standard, mandate date, tier and justification.
#[derive(Clone, Debug)]
pub struct LegalCitation {
    pub standard: String,
    pub mandate_date: String,
    pub tier_level: u8,
    pub justification: String,
}

impl Default for LegalCitation {
    fn default() -> (res: Self)
        ensures
            res.standard@ == "DEFAULT"@,
            res.mandate_date@ == "2026-01-01"@,
            res.tier_level == 1,
            res.justification@ == "Default legal citation"@,
    {
        LegalCitation {
            standard: String::from_str("DEFAULT"),
            mandate_date: String::from_str("2026-01-01"),
            tier_level: 1,
            justification: String::from_str("Default legal citation"),
        }
    }
}

impl LegalCitation {
    /// `<standard> (<mandate date>): <justification>`.
    pub fn to_display_string(&self) -> (res: String)
        ensures
            res@ == self.standard@ + " ("@ + self.mandate_date@ + "): "@ + self.justification@,
    {
        let mut s = String::new();
        push_str(&mut s, self.standard.as_str());
        push_str(&mut s, " (");
        push_str(&mut s, self.mandate_date.as_str());
        push_str(&mut s, "): ");
        push_str(&mut s, self.justification.as_str());
        s
    }
}

/// How much authority governance leaves the controller.
#[derive(PartialEq, Eq, Structural, Clone, Copy, Debug)]
pub enum GovernanceMode {
    Normal,
    Degraded,
    EmergencyRateLimit,
    CompleteVeto,
    PassThrough,
}

/// The display name of a governance mode.
pub open spec fn governance_mode_name(m: GovernanceMode) -> Seq<char> {
    match m {
        GovernanceMode::Normal => "Normal"@,
        GovernanceMode::Degraded => "Degraded"@,
        GovernanceMode::EmergencyRateLimit => "EmergencyRateLimit"@,
        GovernanceMode::CompleteVeto => "CompleteVeto"@,
        GovernanceMode::PassThrough => "PassThrough"@,
    }
}

impl GovernanceMode {
    /// The mode's display name.
    pub fn to_display_string(&self) -> (res: String)
        ensures
            res@ == governance_mode_name(*self),
    {
        let t = match self {
            GovernanceMode::Normal => "Normal",
            GovernanceMode::Degraded => "Degraded",
            GovernanceMode::EmergencyRateLimit => "EmergencyRateLimit",
            GovernanceMode::CompleteVeto => "CompleteVeto",
            GovernanceMode::PassThrough => "PassThrough",
        };
        String::from_str(t)
    }
}

} // verus!
