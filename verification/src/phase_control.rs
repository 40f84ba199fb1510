//! Rollout stages of the kernel and who may command the plant in each.

use vstd::prelude::*;
use crate::failure_axis::{FailureAxis, SystemHalt};
use crate::text::{trim, trim_text, to_ascii_lower, ascii_lower};

verus! {

/// How far the kernel is deployed.
#[derive(PartialEq, Eq, Structural, Clone, Copy, Debug)]
pub enum DeploymentPhase {
    Phase0Passive,
    Phase1Advisory,
    Phase2Guardrail,
    Phase3AssistedControl,
}

/// The phase a configuration word names, after trimming and lower-casing.
pub open spec fn phase_of_word(w: Seq<char>) -> Option<DeploymentPhase> {
    if w == "0"@ || w == "phase0"@ || w == "phase_0"@ || w == "passive"@ {
        Some(DeploymentPhase::Phase0Passive)
    } else if w == "1"@ || w == "phase1"@ || w == "phase_1"@ || w == "advisory"@ {
        Some(DeploymentPhase::Phase1Advisory)
    } else if w == "2"@ || w == "phase2"@ || w == "phase_2"@ || w == "guardrail"@ {
        Some(DeploymentPhase::Phase2Guardrail)
    } else if w == "3"@ || w == "phase3"@ || w == "phase_3"@ || w == "assisted"@ || w
        == "assisted_control"@ {
        Some(DeploymentPhase::Phase3AssistedControl)
    } else {
        None
    }
}

fn word_is(w: &String, lit: &str) -> (res: bool)
    ensures
        res == (w@ == lit@),
{
    *w == String::from_str(lit)
}

impl DeploymentPhase {
    /// The phase named by a configuration value: a digit, `phaseN`, `phase_N`, or
    /// the phase's name, in any ASCII case and with surrounding white space.
    pub fn from_env_value(raw: &str) -> (res: Option<DeploymentPhase>)
        ensures
            res == phase_of_word(ascii_lower(trim_text(raw@))),
    {
        let t = trim(raw);
        let w = to_ascii_lower(t.as_str());
        if word_is(&w, "0") || word_is(&w, "phase0") || word_is(&w, "phase_0") || word_is(&w, "passive") {
            Some(DeploymentPhase::Phase0Passive)
        } else if word_is(&w, "1") || word_is(&w, "phase1") || word_is(&w, "phase_1") || word_is(&w, "advisory") {
            Some(DeploymentPhase::Phase1Advisory)
        } else if word_is(&w, "2") || word_is(&w, "phase2") || word_is(&w, "phase_2") || word_is(&w, "guardrail") {
            Some(DeploymentPhase::Phase2Guardrail)
        } else if word_is(&w, "3") || word_is(&w, "phase3") || word_is(&w, "phase_3") || word_is(&w, "assisted")
            || word_is(&w, "assisted_control") {
            Some(DeploymentPhase::Phase3AssistedControl)
        } else {
            None
        }
    }
}

/// The phase a configuration value selects: the default guardrail phase when
/// none is set, the named phase, or an unauthorized-mode halt for a value that
/// names none.
pub fn phase_from_setting(value: Option<&str>) -> (res: Result<DeploymentPhase, SystemHalt>)
    ensures
        match value {
            None => res == Ok::<_, SystemHalt>(DeploymentPhase::Phase2Guardrail),
            Some(v) => match phase_of_word(ascii_lower(trim_text(v@))) {
                Some(p) => res == Ok::<_, SystemHalt>(p),
                None => res is Err && res->Err_0.axis == FailureAxis::UnauthorizedMode
                    && res->Err_0.message@ == "Invalid MVRE_DEPLOYMENT_PHASE value"@,
            },
        },
{
    match value {
        None => Ok(DeploymentPhase::Phase2Guardrail),
        Some(v) => match DeploymentPhase::from_env_value(v) {
            Some(p) => Ok(p),
            None => Err(SystemHalt::new(FailureAxis::UnauthorizedMode, "Invalid MVRE_DEPLOYMENT_PHASE value")),
        },
    }
}

/// Closed-loop control is allowed only in phase 3 and, when the scope asks for
/// it, only with an operator acknowledgment token that is not blank.
pub fn authorize_closed_loop_control(
    phase: DeploymentPhase,
    require_operator_ack: bool,
    operator_ack_token: Option<&str>,
) -> (res: Result<(), SystemHalt>)
    ensures
        phase != DeploymentPhase::Phase3AssistedControl ==> res is Err && res->Err_0.axis
            == FailureAxis::AuthorityInversionAttempt && res->Err_0.message@
            == "Closed-loop authority is only permitted in Phase 3"@,
        phase == DeploymentPhase::Phase3AssistedControl ==> {
            let acked = match operator_ack_token {
                Some(t) => trim_text(t@).len() > 0,
                None => false,
            };
            if !require_operator_ack || acked {
                res is Ok
            } else {
                res is Err && res->Err_0.axis == FailureAxis::AuthorityInversionAttempt
                    && res->Err_0.message@
                    == "Phase 3 requires a non-empty operator acknowledgment token"@
            }
        },
{
    if phase != DeploymentPhase::Phase3AssistedControl {
        return Err(SystemHalt::new(FailureAxis::AuthorityInversionAttempt, "Closed-loop authority is only permitted in Phase 3"));
    }
    if require_operator_ack {
        match operator_ack_token {
            Some(token) => {
                let t = trim(token);
                if t.as_str().unicode_len() > 0 {
                    Ok(())
                } else {
                    Err(SystemHalt::new(FailureAxis::AuthorityInversionAttempt, "Phase 3 requires a non-empty operator acknowledgment token"))
                }
            },
            None => Err(SystemHalt::new(FailureAxis::AuthorityInversionAttempt, "Phase 3 requires a non-empty operator acknowledgment token")),
        }
    } else {
        Ok(())
    }
}

} // verus!
