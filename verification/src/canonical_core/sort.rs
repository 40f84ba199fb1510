//! Stable ordering of offer records by primary key.

use vstd::prelude::*;
use crate::text::str_chars;
use crate::sced_offer_chain::{
    ScedResourceOfferRecord, OfferView, KeyView, offer_views, key_of, text_order, key_order,
    insert_by_key, sort_by_key, no_dup_before, adjacent_dup,
};

verus! {

/// Lexicographic order of two texts by code point.
pub fn text_order_of(a: &Vec<char>, b: &Vec<char>) -> (r: i8)
    ensures
        r as int == text_order(a@, b@),
{
    let mut i: usize = 0;
    proof {
        assert(a@.skip(0) =~= a@);
        assert(b@.skip(0) =~= b@);
    }
    loop
        invariant
            i <= a@.len(),
            i <= b@.len(),
            text_order(a@, b@) == text_order(a@.skip(i as int), b@.skip(i as int)),
        decreases a@.len() - i,
    {
        if i == a.len() {
            if i == b.len() {
                return 0;
            } else {
                return -1;
            }
        }
        if i == b.len() {
            return 1;
        }
        let ca = a[i] as u32;
        let cb = b[i] as u32;
        if ca < cb {
            return -1;
        }
        if ca > cb {
            return 1;
        }
        proof {
            assert(a@.skip(i as int).drop_first() =~= a@.skip(i + 1));
            assert(b@.skip(i as int).drop_first() =~= b@.skip(i + 1));
        }
        i += 1;
    }
}

/// The key order of two records: negative, zero or positive.
pub fn key_order_of(a: &ScedResourceOfferRecord, b: &ScedResourceOfferRecord) -> (r: i8)
    ensures
        r as int == key_order(key_of(a@), key_of(b@)),
{
    let c0 = text_order_of(&str_chars(a.scd_timestamp.as_str()), &str_chars(b.scd_timestamp.as_str()));
    if c0 != 0 {
        return c0;
    }
    if a.repeat_hour_flag != b.repeat_hour_flag {
        if !a.repeat_hour_flag {
            return -1;
        } else {
            return 1;
        }
    }
    let c2 = text_order_of(&str_chars(a.resource_name.as_str()), &str_chars(b.resource_name.as_str()));
    if c2 != 0 {
        return c2;
    }
    text_order_of(&str_chars(a.offer_type.as_str()), &str_chars(b.offer_type.as_str()))
}

fn insert_record(sorted: &mut Vec<ScedResourceOfferRecord>, x: ScedResourceOfferRecord)
    ensures
        offer_views(final(sorted)@) == insert_by_key(offer_views(old(sorted)@), x@),
{
    let ghost v = offer_views(sorted@);
    let mut pos = sorted.len();
    proof {
        assert(v.take(v.len() as int) =~= v);
        assert(v.skip(v.len() as int) =~= Seq::<OfferView>::empty());
        assert(insert_by_key(v, x@) =~= insert_by_key(v.take(pos as int), x@) + v.skip(pos as int));
    }
    loop
        invariant
            pos <= sorted@.len(),
            v == offer_views(sorted@),
            insert_by_key(v, x@) == insert_by_key(v.take(pos as int), x@) + v.skip(pos as int),
        ensures
            pos <= sorted@.len(),
            v == offer_views(sorted@),
            insert_by_key(v, x@) == insert_by_key(v.take(pos as int), x@) + v.skip(pos as int),
            pos == 0 ==> insert_by_key(v.take(pos as int), x@) == seq![x@],
            pos > 0 ==> insert_by_key(v.take(pos as int), x@) == v.take(pos as int).push(x@),
        decreases pos,
    {
        if pos == 0 {
            proof {
                assert(v.take(0) =~= Seq::<OfferView>::empty());
            }
            break;
        }
        let c = key_order_of(&x, &sorted[pos - 1]);
        if c >= 0 {
            proof {
                assert(v.take(pos as int).last() == v[pos - 1]);
                assert(v[pos - 1] == sorted@[pos - 1]@);
            }
            break;
        }
        proof {
            assert(v.take(pos as int).drop_last() =~= v.take(pos - 1));
            assert(v.take(pos as int).last() == v[pos - 1]);
            assert(insert_by_key(v.take(pos - 1), x@).push(v[pos - 1]) + v.skip(pos as int)
                =~= insert_by_key(v.take(pos - 1), x@) + v.skip(pos - 1));
        }
        pos -= 1;
    }
    let ghost before = sorted@;
    sorted.insert(pos, x);
    proof {
        assert(offer_views(sorted@) =~= insert_by_key(v.take(pos as int), x@) + v.skip(pos as int));
    }
}

/// Sorts `records` by primary key, keeping records with equal keys in their order.
pub fn sort_records(records: &mut Vec<ScedResourceOfferRecord>)
    ensures
        offer_views(final(records)@) == sort_by_key(offer_views(old(records)@)),
{
    let ghost orig = offer_views(records@);
    let mut input: Vec<ScedResourceOfferRecord> = Vec::new();
    std::mem::swap(&mut input, records);
    let mut sorted: Vec<ScedResourceOfferRecord> = Vec::new();
    let ghost mut i: int = 0;
    proof {
        assert(orig.take(0) =~= Seq::<OfferView>::empty());
        assert(orig.skip(0) =~= orig);
    }
    while input.len() > 0
        invariant
            0 <= i <= orig.len(),
            offer_views(input@) == orig.skip(i),
            offer_views(sorted@) == sort_by_key(orig.take(i)),
        decreases input@.len(),
    {
        let ghost old_input = input@;
        proof {
            assert(offer_views(old_input).len() == old_input.len());
            assert(offer_views(old_input)[0] == old_input[0]@);
        }
        let x = input.remove(0);
        proof {
            assert(x@ == orig[i]);
            assert(input@ =~= old_input.subrange(1, old_input.len() as int));
            assert forall|k: int| 0 <= k < input@.len() implies #[trigger] offer_views(input@)[k]
                == orig.skip(i + 1)[k] by {
                assert(offer_views(old_input)[k + 1] == old_input[k + 1]@);
                assert(orig.skip(i)[k + 1] == orig[i + 1 + k]);
            }
            assert(offer_views(input@) =~= orig.skip(i + 1));
            assert(orig.take(i + 1).drop_last() =~= orig.take(i));
            assert(orig.take(i + 1).last() == orig[i]);
        }
        insert_record(&mut sorted, x);
        proof {
            i = i + 1;
        }
    }
    proof {
        assert(orig.take(i) =~= orig);
    }
    *records = sorted;
}

} // verus!

verus! {

/// `text_order` is antisymmetric.
pub proof fn lemma_text_order_antisym(a: Seq<char>, b: Seq<char>)
    ensures
        text_order(a, b) == -text_order(b, a),
    decreases a.len(),
{
    if a.len() > 0 && b.len() > 0 && (a[0] as u32) == (b[0] as u32) {
        lemma_text_order_antisym(a.drop_first(), b.drop_first());
    }
}

/// `text_order` is zero exactly on equal texts.
pub proof fn lemma_text_order_zero(a: Seq<char>, b: Seq<char>)
    ensures
        (text_order(a, b) == 0) == (a == b),
    decreases a.len(),
{
    if a.len() > 0 && b.len() > 0 {
        if (a[0] as u32) == (b[0] as u32) {
            lemma_text_order_zero(a.drop_first(), b.drop_first());
            let u = a[0] as u32;
            vstd::utf8::char_u32_cast(a[0], u);
            vstd::utf8::char_u32_cast(b[0], u);
            assert(a[0] == b[0]);
            if a.drop_first() == b.drop_first() {
                assert(a =~= b) by {
                    assert forall|i: int| 0 <= i < a.len() implies a[i] == b[i] by {
                        if i > 0 {
                            assert(a[i] == a.drop_first()[i - 1]);
                            assert(b[i] == b.drop_first()[i - 1]);
                        }
                    }
                }
            }
            if a == b {
                assert(a.drop_first() =~= b.drop_first());
            }
        } else {
            assert(a[0] != b[0]);
        }
    } else if a.len() == 0 && b.len() == 0 {
        assert(a =~= b);
    }
}

/// `text_order` is transitive on "not greater".
pub proof fn lemma_text_order_trans(a: Seq<char>, b: Seq<char>, c: Seq<char>)
    requires
        text_order(a, b) <= 0,
        text_order(b, c) <= 0,
    ensures
        text_order(a, c) <= 0,
    decreases a.len(),
{
    if a.len() > 0 {
        assert(b.len() > 0);
        assert(c.len() > 0);
        if (a[0] as u32) == (c[0] as u32) {
            assert((a[0] as u32) == (b[0] as u32));
            lemma_text_order_trans(a.drop_first(), b.drop_first(), c.drop_first());
        }
    }
}

/// `key_order` is antisymmetric, zero exactly on equal keys, and transitive on
/// "not greater".
pub proof fn lemma_key_order_laws(a: KeyView, b: KeyView, c: KeyView)
    ensures
        key_order(a, b) == -key_order(b, a),
        (key_order(a, b) == 0) == (a == b),
        key_order(a, b) <= 0 && key_order(b, c) <= 0 ==> key_order(a, c) <= 0,
{
    lemma_text_order_antisym(a.0, b.0);
    lemma_text_order_antisym(a.2, b.2);
    lemma_text_order_antisym(a.3, b.3);
    lemma_text_order_zero(a.0, b.0);
    lemma_text_order_zero(a.2, b.2);
    lemma_text_order_zero(a.3, b.3);
    lemma_text_order_zero(b.0, c.0);
    lemma_text_order_zero(b.2, c.2);
    lemma_text_order_zero(b.3, c.3);
    lemma_text_order_zero(a.0, c.0);
    lemma_text_order_zero(a.2, c.2);
    if key_order(a, b) <= 0 && key_order(b, c) <= 0 {
        let t0 = text_order(a.0, b.0);
        let u0 = text_order(b.0, c.0);
        if t0 <= 0 && u0 <= 0 {
            lemma_text_order_trans(a.0, b.0, c.0);
        }
        if t0 == 0 && u0 == 0 && a.1 == b.1 && b.1 == c.1 {
            let t2 = text_order(a.2, b.2);
            let u2 = text_order(b.2, c.2);
            if t2 <= 0 && u2 <= 0 {
                lemma_text_order_trans(a.2, b.2, c.2);
            }
            if t2 == 0 && u2 == 0 {
                lemma_text_order_trans(a.3, b.3, c.3);
            }
        }
        if t0 < 0 && u0 <= 0 {
            lemma_text_order_trans(a.0, b.0, c.0);
            if text_order(a.0, c.0) == 0 {
                lemma_text_order_antisym(b.0, c.0);
                lemma_text_order_trans(b.0, c.0, a.0);
            }
        }
        if t0 <= 0 && u0 < 0 {
            if text_order(a.0, c.0) == 0 {
                lemma_text_order_trans(c.0, a.0, b.0);
                lemma_text_order_antisym(b.0, c.0);
            }
        }
    }
}

/// Records in non-decreasing key order.
pub open spec fn key_sorted(s: Seq<OfferView>) -> bool {
    forall|i: int, j: int|
        0 <= i < j < s.len() ==> key_order(key_of(#[trigger] s[i]), key_of(#[trigger] s[j])) <= 0
}

proof fn lemma_insert_multiset(s: Seq<OfferView>, x: OfferView)
    ensures
        insert_by_key(s, x).to_multiset() == s.to_multiset().insert(x),
    decreases s.len(),
{
    broadcast use vstd::seq_lib::group_to_multiset_ensures;
    if s.len() == 0 {
        assert(seq![x] =~= Seq::<OfferView>::empty().push(x));
    } else if key_order(key_of(x), key_of(s.last())) >= 0 {
    } else {
        lemma_insert_multiset(s.drop_last(), x);
        assert(s =~= s.drop_last().push(s.last()));
        assert(s.to_multiset() == s.drop_last().to_multiset().insert(s.last()));
        assert(s.drop_last().to_multiset().insert(x).insert(s.last()) =~= s.drop_last().to_multiset().insert(
            s.last(),
        ).insert(x));
    }
}

proof fn lemma_insert_sorted(s: Seq<OfferView>, x: OfferView)
    requires
        key_sorted(s),
    ensures
        key_sorted(insert_by_key(s, x)),
    decreases s.len(),
{
    broadcast use vstd::seq_lib::group_to_multiset_ensures;
    if s.len() == 0 {
    } else if key_order(key_of(x), key_of(s.last())) >= 0 {
        let r = s.push(x);
        let n = s.len() as int;
        assert forall|i: int, j: int| 0 <= i < j < r.len() implies key_order(key_of(#[trigger] r[i]), key_of(#[trigger] r[j])) <= 0 by {
            if j == n {
                lemma_key_order_laws(key_of(x), key_of(s.last()), key_of(x));
                if i < n - 1 {
                    lemma_key_order_laws(key_of(s[i]), key_of(s.last()), key_of(x));
                } else {
                    lemma_key_order_laws(key_of(s.last()), key_of(s.last()), key_of(x));
                }
            }
        }
    } else {
        let d = s.drop_last();
        assert(key_sorted(d));
        lemma_insert_sorted(d, x);
        lemma_insert_multiset(d, x);
        let r0 = insert_by_key(d, x);
        let r = r0.push(s.last());
        let n = r0.len() as int;
        assert forall|i: int, j: int| 0 <= i < j < r.len() implies key_order(key_of(#[trigger] r[i]), key_of(#[trigger] r[j])) <= 0 by {
            if j == n {
                let y = r0[i];
                assert(r0.contains(y));
                assert(r0.to_multiset().count(y) > 0);
                if y == x {
                    lemma_key_order_laws(key_of(x), key_of(s.last()), key_of(x));
                } else {
                    assert(d.to_multiset().count(y) > 0);
                    assert(d.contains(y));
                    let k = choose|k: int| 0 <= k < d.len() && d[k] == y;
                    assert(s[k] == y);
                    assert(key_order(key_of(s[k]), key_of(s[s.len() - 1])) <= 0);
                }
            }
        }
    }
}

/// Sorting yields the records' own multiset in non-decreasing key order.
pub proof fn lemma_sort_is_ordered_permutation(s: Seq<OfferView>)
    ensures
        sort_by_key(s).to_multiset() == s.to_multiset(),
        key_sorted(sort_by_key(s)),
    decreases s.len(),
{
    broadcast use vstd::seq_lib::group_to_multiset_ensures;
    if s.len() == 0 {
        assert(s.to_multiset() =~= vstd::multiset::Multiset::<OfferView>::empty());
        assert(Seq::<OfferView>::empty().to_multiset() =~= vstd::multiset::Multiset::<OfferView>::empty());
    } else {
        lemma_sort_is_ordered_permutation(s.drop_last());
        lemma_insert_multiset(sort_by_key(s.drop_last()), s.last());
        lemma_insert_sorted(sort_by_key(s.drop_last()), s.last());
        assert(s =~= s.drop_last().push(s.last()));
    }
}


/// Records of `m` that share a primary key are identical.
pub open spec fn distinct_keys(m: vstd::multiset::Multiset<OfferView>) -> bool {
    forall|x: OfferView, y: OfferView|
        #![trigger m.count(x), m.count(y)]
        m.count(x) > 0 && m.count(y) > 0 && key_of(x) == key_of(y) ==> x == y
}

proof fn lemma_sorted_unique(a: Seq<OfferView>, b: Seq<OfferView>)
    requires
        key_sorted(a),
        key_sorted(b),
        a.to_multiset() == b.to_multiset(),
        distinct_keys(a.to_multiset()),
    ensures
        a == b,
    decreases a.len(),
{
    broadcast use vstd::seq_lib::group_to_multiset_ensures;
    broadcast use vstd::multiset::group_multiset_axioms;
    vstd::seq_lib::to_multiset_len(a);
    vstd::seq_lib::to_multiset_len(b);
    assert(a.len() == b.len());
    if a.len() == 0 {
        assert(a =~= b);
    } else {
        let n = a.len() - 1;
        let x = a.last();
        let y = b.last();
        assert(a.contains(x));
        assert(b.to_multiset().count(x) > 0);
        assert(b.contains(x));
        let k = choose|k: int| 0 <= k < b.len() && b[k] == x;
        assert(key_order(key_of(x), key_of(y)) <= 0) by {
            if k < n {
                assert(key_order(key_of(b[k]), key_of(b[n])) <= 0);
            } else {
                lemma_key_order_laws(key_of(x), key_of(x), key_of(x));
            }
        }
        assert(b.contains(y));
        assert(a.to_multiset().count(y) > 0);
        assert(a.contains(y));
        let l = choose|l: int| 0 <= l < a.len() && a[l] == y;
        assert(key_order(key_of(y), key_of(x)) <= 0) by {
            if l < n {
                assert(key_order(key_of(a[l]), key_of(a[n])) <= 0);
            } else {
                lemma_key_order_laws(key_of(y), key_of(y), key_of(y));
            }
        }
        lemma_key_order_laws(key_of(x), key_of(y), key_of(x));
        assert(key_of(x) == key_of(y));
        assert(x == y);
        let a1 = a.drop_last();
        let b1 = b.drop_last();
        assert(a =~= a1.push(x));
        assert(b =~= b1.push(x));
        assert(a1.to_multiset() =~= b1.to_multiset()) by {
            assert(a1.push(x).to_multiset() =~= a1.to_multiset().insert(x));
            assert(b1.push(x).to_multiset() =~= b1.to_multiset().insert(x));
            assert forall|z: OfferView| a1.to_multiset().count(z) == b1.to_multiset().count(z) by {
                assert(a.to_multiset().count(z) == b.to_multiset().count(z));
                assert(a1.to_multiset().insert(x).count(z) == b1.to_multiset().insert(x).count(z));
            }
        }
        assert(distinct_keys(a1.to_multiset())) by {
            assert(a.to_multiset() == a1.to_multiset().insert(x));
            assert forall|z: OfferView, w: OfferView|
                a1.to_multiset().count(z) > 0 && a1.to_multiset().count(w) > 0 && key_of(z) == key_of(w) implies z == w by {
                assert(a.to_multiset().count(z) > 0);
                assert(a.to_multiset().count(w) > 0);
            }
        }
        assert(key_sorted(a1));
        assert(key_sorted(b1));
        lemma_sorted_unique(a1, b1);
    }
}

/// The canonical order does not depend on the input order: as long as records that
/// share a primary key are identical, any two arrangements of the same records sort
/// to the same sequence.
pub proof fn lemma_canonical_order_independent(s1: Seq<OfferView>, s2: Seq<OfferView>)
    requires
        s1.to_multiset() == s2.to_multiset(),
        distinct_keys(s1.to_multiset()),
    ensures
        sort_by_key(s1) == sort_by_key(s2),
{
    lemma_sort_is_ordered_permutation(s1);
    lemma_sort_is_ordered_permutation(s2);
    lemma_sorted_unique(sort_by_key(s1), sort_by_key(s2));
}

/// Records in strictly increasing key order.
pub open spec fn key_strictly_sorted(s: Seq<OfferView>) -> bool {
    forall|i: int, j: int|
        0 <= i < j < s.len() ==> key_order(key_of(#[trigger] s[i]), key_of(#[trigger] s[j])) < 0
}

/// Records in non-decreasing key order with no two neighbours sharing a key are in
/// strictly increasing key order.
pub proof fn lemma_sorted_without_neighbour_dups_is_strict(s: Seq<OfferView>)
    requires
        key_sorted(s),
        no_dup_before(s, s.len() as int),
    ensures
        key_strictly_sorted(s),
{
    assert forall|i: int, j: int| 0 <= i < j < s.len() implies key_order(key_of(#[trigger] s[i]), key_of(#[trigger] s[j])) < 0 by {
        lemma_key_order_laws(key_of(s[i]), key_of(s[i + 1]), key_of(s[j]));
        lemma_key_order_laws(key_of(s[i + 1]), key_of(s[j]), key_of(s[i]));
        lemma_key_order_laws(key_of(s[i]), key_of(s[j]), key_of(s[i]));
        assert(key_order(key_of(s[i]), key_of(s[i + 1])) <= 0);
        if i + 1 < j {
            assert(key_order(key_of(s[i + 1]), key_of(s[j])) <= 0);
        }
        assert(!adjacent_dup(s, i + 1));
    }
}

/// Sorting records whose primary keys are all different gives a permutation of
/// them in strictly increasing key order.
pub proof fn lemma_sort_strictly_increasing(s: Seq<OfferView>)
    requires
        forall|i: int, j: int| 0 <= i < j < s.len() ==> key_of(#[trigger] s[i]) != key_of(#[trigger] s[j]),
    ensures
        sort_by_key(s).to_multiset() == s.to_multiset(),
        key_strictly_sorted(sort_by_key(s)),
{
    broadcast use vstd::seq_lib::group_to_multiset_ensures;
    lemma_sort_is_ordered_permutation(s);
    let r = sort_by_key(s);
    assert forall|i: int, j: int| 0 <= i < s.len() && 0 <= j < s.len() && i != j implies s[i] != s[j] by {
        if i < j {
            assert(key_of(s[i]) != key_of(s[j]));
        } else {
            assert(key_of(s[j]) != key_of(s[i]));
        }
    }
    assert(s.no_duplicates());
    s.lemma_multiset_has_no_duplicates();
    r.lemma_multiset_has_no_duplicates_conv();
    assert forall|i: int, j: int| 0 <= i < j < r.len() implies key_order(key_of(#[trigger] r[i]), key_of(#[trigger] r[j])) < 0 by {
        assert(r.contains(r[i]));
        assert(r.contains(r[j]));
        assert(r.to_multiset().count(r[i]) > 0);
        assert(r.to_multiset().count(r[j]) > 0);
        assert(s.to_multiset().count(r[i]) > 0);
        assert(s.to_multiset().count(r[j]) > 0);
        assert(s.contains(r[i]));
        assert(s.contains(r[j]));
        let k = choose|k: int| 0 <= k < s.len() && s[k] == r[i];
        let l = choose|l: int| 0 <= l < s.len() && s[l] == r[j];
        assert(r[i] != r[j]);
        assert(k != l);
        if k < l {
            assert(key_of(s[k]) != key_of(s[l]));
        } else {
            assert(key_of(s[l]) != key_of(s[k]));
        }
        lemma_key_order_laws(key_of(r[i]), key_of(r[j]), key_of(r[j]));
    }
}

} // verus!
