//! Adversarial tests generated from invariant descriptions.

use vstd::prelude::*;
use crate::text::{push_str, to_lowercase, unicode_lowercase};
use crate::verification_engine::vir_loader::{Vir, Invariant};

verus! {

/// The header of the generated test file.
pub open spec fn tests_header() -> Seq<char> {
    "// Generated adversarial tests\n"@ + "use adversarial_runtime::*;\n"@
        + "use verification_engine::runtime_bridge::evaluate_invariant;\n\n"@
}

/// The test of invariant `id` (lower-cased `id_lower`) under scenario `test`.
pub open spec fn test_of(id: Seq<char>, id_lower: Seq<char>, test: Seq<char>) -> Seq<char> {
    "#[test]\nfn test_"@ + id_lower + "_"@ + test + "() {\n"@
        + "    let state = generate_corrupt_state(\""@ + test + "\");\n"@
        + "    assert!(evaluate_invariant(\""@ + id + "\", &state));\n"@ + "}\n\n"@
}

/// The tests of one invariant's scenarios, in order.
pub open spec fn tests_of(id: Seq<char>, id_lower: Seq<char>, tests: Seq<String>) -> Seq<char>
    decreases tests.len(),
{
    if tests.len() == 0 {
        Seq::empty()
    } else {
        tests_of(id, id_lower, tests.drop_last()) + test_of(id, id_lower, tests.last()@)
    }
}

/// The tests of all invariants, in order.
pub open spec fn all_tests(invs: Seq<Invariant>) -> Seq<char>
    decreases invs.len(),
{
    if invs.len() == 0 {
        Seq::empty()
    } else {
        all_tests(invs.drop_last()) + tests_of(
            invs.last().id@,
            unicode_lowercase(invs.last().id@),
            invs.last().adversarial@,
        )
    }
}

/// The test file for `vir`: a header, then per invariant and scenario a test
/// that builds the corrupt state and requires the invariant to hold.
pub fn generate(vir: &Vir) -> (res: String)
    ensures
        res@ == tests_header() + all_tests(vir.invariants@),
{
    let mut out = String::from_str("// Generated adversarial tests\n");
    push_str(&mut out, "use adversarial_runtime::*;\n");
    push_str(&mut out, "use verification_engine::runtime_bridge::evaluate_invariant;\n\n");
    let mut i: usize = 0;
    while i < vir.invariants.len()
        invariant
            i <= vir.invariants@.len(),
            out@ == tests_header() + all_tests(vir.invariants@.take(i as int)),
        decreases vir.invariants@.len() - i,
    {
        let inv = &vir.invariants[i];
        let id_lower = to_lowercase(inv.id.as_str());
        let ghost start = out@;
        let mut j: usize = 0;
        while j < inv.adversarial.len()
            invariant
                j <= inv.adversarial@.len(),
                id_lower@ == unicode_lowercase(inv.id@),
                out@ == start + tests_of(inv.id@, id_lower@, inv.adversarial@.take(j as int)),
            decreases inv.adversarial@.len() - j,
        {
            let test = &inv.adversarial[j];
            let ghost before = out@;
            push_str(&mut out, "#[test]\nfn test_");
            push_str(&mut out, id_lower.as_str());
            push_str(&mut out, "_");
            push_str(&mut out, test.as_str());
            push_str(&mut out, "() {\n");
            push_str(&mut out, "    let state = generate_corrupt_state(\"");
            push_str(&mut out, test.as_str());
            push_str(&mut out, "\");\n");
            push_str(&mut out, "    assert!(evaluate_invariant(\"");
            push_str(&mut out, inv.id.as_str());
            push_str(&mut out, "\", &state));\n");
            push_str(&mut out, "}\n\n");
            proof {
                assert(inv.adversarial@.take(j + 1).drop_last() =~= inv.adversarial@.take(j as int));
                assert(out@ =~= before + test_of(inv.id@, id_lower@, test@));
            }
            j += 1;
        }
        proof {
            assert(inv.adversarial@.take(j as int) =~= inv.adversarial@);
            assert(vir.invariants@.take(i + 1).drop_last() =~= vir.invariants@.take(i as int));
        }
        i += 1;
    }
    proof {
        assert(vir.invariants@.take(i as int) =~= vir.invariants@);
    }
    out
}

} // verus!
