//! The canonical text of an offer record.

use vstd::prelude::*;
use crate::text::{push_str, string_push};
use crate::sced_offer_chain::{
    ScedResourceOfferRecord, OfferView, canonical_fields, canonical_text, join_pipe, bool_text,
};

verus! {

proof fn lemma_join_step(f: Seq<Seq<char>>, k: int)
    requires
        1 <= k < f.len(),
    ensures
        join_pipe(f.take(k + 1)) == join_pipe(f.take(k)) + seq!['|'] + f[k],
{
    assert(f.take(k + 1).drop_last() =~= f.take(k));
}

fn push_bool_text(s: &mut String, b: bool)
    ensures
        final(s)@ == old(s)@ + bool_text(b),
{
    if b {
        string_push(s, 't');
        string_push(s, 'r');
        string_push(s, 'u');
        string_push(s, 'e');
    } else {
        string_push(s, 'f');
        string_push(s, 'a');
        string_push(s, 'l');
        string_push(s, 's');
        string_push(s, 'e');
    }
    assert(final(s)@ =~= old(s)@ + bool_text(b));
}

/// The canonical text of `record`: timestamp, repeat-hour flag, resource name,
/// the 48 numeric fields and the offer type, joined with `|`.
pub fn canonical_record_string_utf8(record: &ScedResourceOfferRecord) -> (res: String)
    ensures
        res@ == canonical_text(record@),
{
    let ghost f = canonical_fields(record@);
    let ghost r = record@;
    assert(r.values.len() == 48);
    assert(f.len() == 52);
    let mut s = String::new();
    push_str(&mut s, record.scd_timestamp.as_str());
    proof {
        assert(f.take(1) =~= seq![r.ts]);
        assert(s@ == join_pipe(f.take(1)));
    }
    string_push(&mut s, '|');
    push_bool_text(&mut s, record.repeat_hour_flag);
    proof {
        lemma_join_step(f, 1);
        assert(f[1] == bool_text(r.repeat));
        assert(s@ =~= join_pipe(f.take(1)) + seq!['|'] + f[1]);
    }
    string_push(&mut s, '|');
    push_str(&mut s, record.resource_name.as_str());
    proof {
        lemma_join_step(f, 2);
        assert(s@ =~= join_pipe(f.take(2)) + seq!['|'] + f[2]);
    }
    let mut i: usize = 0;
    while i < 48
        invariant
            i <= 48,
            f == canonical_fields(record@),
            r == record@,
            f.len() == 52,
            r.values.len() == 48,
            s@ == join_pipe(f.take(3 + i)),
        decreases 48 - i,
    {
        string_push(&mut s, '|');
        push_str(&mut s, record.prices_and_quantities[i].as_str());
        proof {
            lemma_join_step(f, 3 + i);
            assert(f[3 + i] == r.values[i as int]);
            assert(s@ =~= join_pipe(f.take(3 + i)) + seq!['|'] + f[3 + i]);
        }
        i += 1;
    }
    string_push(&mut s, '|');
    push_str(&mut s, record.offer_type.as_str());
    proof {
        lemma_join_step(f, 51);
        assert(s@ =~= join_pipe(f.take(51)) + seq!['|'] + f[51]);
        assert(f.take(52) =~= f);
    }
    s
}

} // verus!
