//! Model-checking harnesses generated from invariant descriptions.

use vstd::prelude::*;
use crate::text::{push_str, to_lowercase, unicode_lowercase};
use crate::verification_engine::vir_loader::{Vir, Invariant, wrapped_lines};

verus! {

/// The header of the generated harness file.
pub open spec fn harness_header() -> Seq<char> {
    "// Generated Kani proofs\n"@
}

/// The harness of one invariant.
pub open spec fn harness_of(inv: Invariant) -> Seq<char> {
    "#[cfg(kani)]\n#[kani::proof]\nfn proof_"@ + unicode_lowercase(inv.id@) + "() {\n"@
        + "    #[cfg(kani)] let input: "@ + inv.inputs@ + " = kani::any();\n"@ + wrapped_lines(
        "    kani_bindings::assume("@,
        inv.kani.assumes@,
        ");\n"@,
    ) + wrapped_lines("    kani_bindings::assert("@, inv.kani.asserts@, ");\n"@) + "}\n\n"@
}

/// The harnesses of `invs`, in order.
pub open spec fn harnesses(invs: Seq<Invariant>) -> Seq<char>
    decreases invs.len(),
{
    if invs.len() == 0 {
        Seq::empty()
    } else {
        harnesses(invs.drop_last()) + harness_of(invs.last())
    }
}

/// Appends `prefix + item + suffix` for each item.
pub(crate) fn push_wrapped(out: &mut String, prefix: &str, items: &Vec<String>, suffix: &str)
    ensures
        final(out)@ == old(out)@ + wrapped_lines(prefix@, items@, suffix@),
{
    let mut i: usize = 0;
    while i < items.len()
        invariant
            i <= items@.len(),
            out@ == old(out)@ + wrapped_lines(prefix@, items@.take(i as int), suffix@),
        decreases items@.len() - i,
    {
        let ghost before = out@;
        push_str(out, prefix);
        push_str(out, items[i].as_str());
        push_str(out, suffix);
        proof {
            assert(items@.take(i + 1).drop_last() =~= items@.take(i as int));
            assert(out@ =~= before + prefix@ + items@[i as int]@ + suffix@);
        }
        i += 1;
    }
    proof {
        assert(items@.take(i as int) =~= items@);
    }
}

/// The harness file for `vir`: a header, then per invariant a proof function
/// that takes an arbitrary input and applies its assumptions and assertions.
pub fn generate(vir: &Vir) -> (res: String)
    ensures
        res@ == harness_header() + harnesses(vir.invariants@),
{
    let mut out = String::from_str("// Generated Kani proofs\n");
    let mut i: usize = 0;
    while i < vir.invariants.len()
        invariant
            i <= vir.invariants@.len(),
            out@ == harness_header() + harnesses(vir.invariants@.take(i as int)),
        decreases vir.invariants@.len() - i,
    {
        let inv = &vir.invariants[i];
        let ghost before = out@;
        let id_lower = to_lowercase(inv.id.as_str());
        push_str(&mut out, "#[cfg(kani)]\n#[kani::proof]\nfn proof_");
        push_str(&mut out, id_lower.as_str());
        push_str(&mut out, "() {\n");
        push_str(&mut out, "    #[cfg(kani)] let input: ");
        push_str(&mut out, inv.inputs.as_str());
        push_str(&mut out, " = kani::any();\n");
        push_wrapped(&mut out, "    kani_bindings::assume(", &inv.kani.assumes, ");\n");
        push_wrapped(&mut out, "    kani_bindings::assert(", &inv.kani.asserts, ");\n");
        push_str(&mut out, "}\n\n");
        proof {
            assert(vir.invariants@.take(i + 1).drop_last() =~= vir.invariants@.take(i as int));
            assert(out@ =~= before + harness_of(vir.invariants@[i as int]));
        }
        i += 1;
    }
    proof {
        assert(vir.invariants@.take(i as int) =~= vir.invariants@);
    }
    out
}

} // verus!
