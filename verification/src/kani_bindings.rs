//! Proof primitives for model-checked builds; outside such builds they do nothing.

use vstd::prelude::*;

verus! {

/// Assumes `cond` under a model checker; a no-op in ordinary builds.
pub fn assume_condition(_cond: bool) {
}

/// Asserts `cond` under a model checker; a no-op in ordinary builds.
pub fn assert_condition(_cond: bool) {
}

} // verus!
