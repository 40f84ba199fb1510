//! Invariant descriptions (VIR).

use vstd::prelude::*;

verus! {

/// A set of invariant descriptions.
#[derive(Debug)]
pub struct Vir {
    pub invariants: Vec<Invariant>,
}

/// One invariant: its id, its input type, its model-checking clauses and the
/// adversarial scenarios it must survive.
#[derive(Debug)]
pub struct Invariant {
    pub id: String,
    pub inputs: String,
    pub kani: KaniClause,
    pub adversarial: Vec<String>,
}

/// Assumptions and assertions of a model-checking harness.
#[derive(Debug)]
pub struct KaniClause {
    pub assumes: Vec<String>,
    pub asserts: Vec<String>,
}

/// `prefix + item + suffix` for each item, concatenated in order.
pub open spec fn wrapped_lines(prefix: Seq<char>, items: Seq<String>, suffix: Seq<char>) -> Seq<char>
    decreases items.len(),
{
    if items.len() == 0 {
        Seq::empty()
    } else {
        wrapped_lines(prefix, items.drop_last(), suffix) + prefix + items.last()@ + suffix
    }
}

} // verus!
