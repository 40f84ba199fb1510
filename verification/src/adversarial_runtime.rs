//! Corrupted inputs for adversarial tests.

use vstd::prelude::*;
use crate::text::push_str;

verus! {

/// A timestamp pushed 999 999 units ahead, wrapping at 2^64.
pub fn corrupt_timestamp(ts: u64) -> (res: u64)
    ensures
        res == ts.wrapping_add(999_999),
{
    ts.wrapping_add(999_999)
}

/// The corrupt state of a scenario: `corrupt-state: <scenario>`.
pub fn generate_corrupt_state(scenario: &str) -> (res: String)
    ensures
        res@ == "corrupt-state: "@ + scenario@,
{
    let mut s = String::from_str("corrupt-state: ");
    push_str(&mut s, scenario);
    s
}

} // verus!
