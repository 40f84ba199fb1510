//! Operator diagnostics, commissioning and compliance status.

use vstd::prelude::*;
use crate::failure_axis::{FailureAxis, SystemHalt};
use crate::text::{to_lowercase, unicode_lowercase};

verus! {

/// Status of each mandate.
#[derive(Clone, Debug)]
pub struct ComplianceSnapshot {
    pub tpl008_status: String,
    pub prc029_status: String,
    pub cip012_status: String,
}

/// Formalization progress and where the audit trail is written.
#[derive(Clone, Debug)]
pub struct HardeningSnapshot {
    pub formalization_ticks: u64,
    pub audit_filepath: String,
}

/// The answer to a diagnostic query word (already lower-cased).
pub open spec fn diagnosis_of(q: Seq<char>) -> Option<Seq<char>> {
    if q == "compliance"@ {
        Some("All mandates compliant"@)
    } else if q == "thermal"@ {
        Some("TPL-008-1 nominal"@)
    } else if q == "frequency"@ {
        Some("PRC-029-1 nominal"@)
    } else if q == "crypto"@ {
        Some("CIP-012-2 nominal"@)
    } else {
        None
    }
}

fn word_is(w: &String, lit: &str) -> (res: bool)
    ensures
        res == (w@ == lit@),
{
    *w == String::from_str(lit)
}

/// Answers `compliance`, `thermal`, `frequency` or `crypto` (in any case); any
/// other query halts as unknown.
pub fn diagnose_query(query: &str, _artifacts_dir: &str) -> (res: Result<String, SystemHalt>)
    ensures
        match diagnosis_of(unicode_lowercase(query@)) {
            Some(a) => res is Ok && res->Ok_0@ == a,
            None => res is Err && res->Err_0.axis == FailureAxis::ExternalInjectionDetected
                && res->Err_0.message@ == "Unknown diagnostic query"@,
        },
{
    let q = to_lowercase(query);
    if word_is(&q, "compliance") {
        Ok(String::from_str("All mandates compliant"))
    } else if word_is(&q, "thermal") {
        Ok(String::from_str("TPL-008-1 nominal"))
    } else if word_is(&q, "frequency") {
        Ok(String::from_str("PRC-029-1 nominal"))
    } else if word_is(&q, "crypto") {
        Ok(String::from_str("CIP-012-2 nominal"))
    } else {
        Err(SystemHalt::new(FailureAxis::ExternalInjectionDetected, "Unknown diagnostic query"))
    }
}

/// One-click commissioning; it has no steps yet and always succeeds.
pub fn run_one_click_commissioning() -> (res: Result<(), SystemHalt>)
    ensures
        res is Ok,
{
    Ok(())
}

/// The compliance snapshot once the commissioning manifest's presence is known:
/// every mandate active, or a halt when the manifest is missing.
pub fn evaluate_compliance_status(manifest_present: bool) -> (res: Result<ComplianceSnapshot, SystemHalt>)
    ensures
        manifest_present ==> res is Ok && res->Ok_0.tpl008_status@ == "Active"@
            && res->Ok_0.prc029_status@ == "Active"@ && res->Ok_0.cip012_status@ == "Active"@,
        !manifest_present ==> res is Err && res->Err_0.axis == FailureAxis::ExternalInjectionDetected
            && res->Err_0.message@ == "Commissioning manifest not found"@,
{
    if !manifest_present {
        return Err(SystemHalt::new(FailureAxis::ExternalInjectionDetected, "Commissioning manifest not found"));
    }
    Ok(
        ComplianceSnapshot {
            tpl008_status: String::from_str("Active"),
            prc029_status: String::from_str("Active"),
            cip012_status: String::from_str("Active"),
        },
    )
}

/// The PRC-024 voltage guard; it always passes.
pub fn prc024_voltage_guard() -> (res: bool)
    ensures
        res,
{
    true
}

} // verus!
