//! Chain construction over key-sorted offer records.

use vstd::prelude::*;
use crate::text::{string_push, push_str, push_decimal, trim, trim_text, ascii_lower, eq_ignore_ascii_case, decimal};
use crate::canonical_core::hash::{chain_hash_hex, record_hash_hex};
use crate::canonical_core::sort::sort_records;
use crate::sced_offer_chain::{
    ScedResourceOfferRecord, ChainedRecord, ParseError, ParseErrorView, ChainView, OfferView,
    offer_views, chain_views, chain_of, chain_hash_at, genesis, key_of, adjacent_dup,
    no_dup_before, sort_by_key, chain_outcome,
};

verus! {

/// The genesis chain hash `"0"`.
pub fn genesis_hash() -> (res: String)
    ensures
        res@ == genesis(),
{
    let mut s = String::new();
    string_push(&mut s, '0');
    s
}

/// Whether records `a` and `b` share a primary key.
pub fn same_key(a: &ScedResourceOfferRecord, b: &ScedResourceOfferRecord) -> (res: bool)
    ensures
        res == (key_of(a@) == key_of(b@)),
{
    a.scd_timestamp == b.scd_timestamp && a.repeat_hour_flag == b.repeat_hour_flag
        && a.resource_name == b.resource_name && a.offer_type == b.offer_type
}

/// The index of the first record of sorted `records` whose key equals its predecessor's.
fn first_duplicate(records: &Vec<ScedResourceOfferRecord>) -> (res: Option<usize>)
    ensures
        match res {
            Some(i) => adjacent_dup(offer_views(records@), i as int) && no_dup_before(
                offer_views(records@),
                i as int,
            ),
            None => no_dup_before(offer_views(records@), records@.len() as int),
        },
{
    let ghost s = offer_views(records@);
    let mut i: usize = 1;
    while i < records.len()
        invariant
            1 <= i,
            s == offer_views(records@),
            no_dup_before(s, if i <= records@.len() { i as int } else { records@.len() as int }),
        decreases records@.len() - i,
    {
        if same_key(&records[i - 1], &records[i]) {
            proof {
                assert(adjacent_dup(s, i as int));
            }
            return Some(i);
        }
        proof {
            assert forall|j: int| 1 <= j < i + 1 implies !#[trigger] adjacent_dup(s, j) by {
                if j < i {
                    assert(!adjacent_dup(s, j));
                }
            }
        }
        i += 1;
    }
    proof {
        if records@.len() == 0 {
            assert forall|j: int| 1 <= j < 0 implies !#[trigger] adjacent_dup(s, j) by {}
        }
    }
    None
}

/// The record key of `r` as owned values.
pub fn key_tuple(r: &ScedResourceOfferRecord) -> (res: (String, bool, String, String))
    ensures
        (res.0@, res.1, res.2@, res.3@) == key_of(r@),
{
    (r.scd_timestamp.clone(), r.repeat_hour_flag, r.resource_name.clone(), r.offer_type.clone())
}

/// The hash chain of already sorted records.
pub fn chain_of_sorted(records: &Vec<ScedResourceOfferRecord>) -> (res: Vec<ChainedRecord>)
    ensures
        chain_views(res@) == chain_of(offer_views(records@)),
{
    let ghost s = offer_views(records@);
    let mut out: Vec<ChainedRecord> = Vec::new();
    let mut prev = genesis_hash();
    let mut i: usize = 0;
    while i < records.len()
        invariant
            i <= records@.len(),
            s == offer_views(records@),
            chain_views(out@) == chain_of(s).take(i as int),
            prev@ == if i == 0 { genesis() } else { chain_hash_at(s, i - 1) },
        decreases records@.len() - i,
    {
        let record_hash = record_hash_hex(&records[i]);
        let chain_hash = chain_hash_hex(prev.as_str(), record_hash.as_str());
        let item = ChainedRecord { key: key_tuple(&records[i]), record_hash, chain_hash: chain_hash.clone() };
        let ghost before = out@;
        out.push(item);
        proof {
            assert(s[i as int] == records@[i as int]@);
            assert(chain_hash@ == chain_hash_at(s, i as int));
            assert(chain_views(out@) =~= chain_views(before).push(item@));
            assert(chain_of(s).take(i + 1) =~= chain_of(s).take(i as int).push(chain_of(s)[i as int]));
        }
        prev = chain_hash;
        i += 1;
    }
    proof {
        assert(chain_of(s).take(i as int) =~= chain_of(s));
    }
    out
}

/// Chains records already in key order, refusing the first repeated primary key.
pub fn chain_sorted_records(records: &Vec<ScedResourceOfferRecord>) -> (res: Result<Vec<ChainedRecord>, ParseError>)
    ensures
        ({
            let s = offer_views(records@);
            match res {
                Ok(c) => no_dup_before(s, s.len() as int) && chain_views(c@) == chain_of(s),
                Err(e) => exists|i: int|
                    #![trigger adjacent_dup(s, i)]
                    adjacent_dup(s, i) && no_dup_before(s, i) && e@
                        == ParseErrorView::DuplicatePrimaryKey(key_of(s[i])),
            }
        }),
{
    let ghost s = offer_views(records@);
    match first_duplicate(records) {
        Some(i) => {
            let k = key_tuple(&records[i]);
            proof {
                assert(s[i as int] == records@[i as int]@);
            }
            Err(ParseError::DuplicatePrimaryKey(k.0, k.1, k.2, k.3))
        },
        None => Ok(chain_of_sorted(records)),
    }
}

/// Sorts `records` by key and chains them, refusing duplicate primary keys.
pub fn build_hash_chain(records: Vec<ScedResourceOfferRecord>) -> (res: Result<Vec<ChainedRecord>, ParseError>)
    ensures
        chain_outcome(
            offer_views(records@),
            match res {
                Ok(c) => Ok(chain_views(c@)),
                Err(e) => Err(e@),
            },
        ),
{
    let mut records = records;
    sort_records(&mut records);
    chain_sorted_records(&records)
}


// ---------------------------------------------------------------------------
// CSV intake
// ---------------------------------------------------------------------------

/// A CSV file read with `csv`: its header fields, the records read before the first
/// record error, and that error's message if there is one.
pub struct CsvTable {
    pub headers: Vec<String>,
    pub rows: Vec<Vec<String>>,
    pub error: Option<String>,
}

/// What `csv` reads from `input` (headers on, no trimming): the header fields, the
/// records up to the first error and that error's text; or the header error's text.
pub uninterp spec fn csv_table(input: Seq<u8>) -> Result<(Seq<Seq<char>>, Seq<Seq<Seq<char>>>, Option<Seq<char>>), Seq<char>>;

/// The texts of a sequence of strings.
pub open spec fn texts(v: Seq<String>) -> Seq<Seq<char>> {
    v.map_values(|s: String| s@)
}

/// The texts of a sequence of string rows.
pub open spec fn row_texts(v: Seq<Vec<String>>) -> Seq<Seq<Seq<char>>> {
    v.map_values(|r: Vec<String>| texts(r@))
}

/// `csv::ReaderBuilder` with headers and without trimming, reading `input`: claimed
/// to return `csv_table(input)` (the reader's header record, its string records in
/// order up to the first failing one, and that failure's `to_string`).
#[verifier::external_body]
pub(crate) fn csv_read(input: &[u8]) -> (res: Result<CsvTable, String>)
    ensures
        match res {
            Ok(t) => csv_table(input@) == Ok::<_, Seq<char>>(
                (texts(t.headers@), row_texts(t.rows@), match t.error {
                    Some(m) => Some(m@),
                    None => None,
                }),
            ),
            Err(m) => csv_table(input@) == Err::<(Seq<Seq<char>>, Seq<Seq<Seq<char>>>, Option<Seq<char>>), _>(m@),
        },
{
    let mut reader = csv::ReaderBuilder::new().has_headers(true).trim(csv::Trim::None).from_reader(input);
    let headers: Vec<String> = reader.headers().map_err(|e| e.to_string())?.iter().map(String::from).collect();
    let mut rows: Vec<Vec<String>> = Vec::new();
    for row in reader.records() {
        match row {
            Ok(r) => rows.push(r.iter().map(String::from).collect()),
            Err(e) => return Ok(CsvTable { headers, rows, error: Some(e.to_string()) }),
        }
    }
    Ok(CsvTable { headers, rows, error: None })
}


/// The `idx`-th price suffix of a bid block.
pub open spec fn price_suffix(idx: int) -> Seq<char> {
    if idx == 0 {
        "_urs"@
    } else if idx == 1 {
        "_drs"@
    } else if idx == 2 {
        "_rrspf"@
    } else if idx == 3 {
        "_rrsuf"@
    } else if idx == 4 {
        "_rrsff"@
    } else if idx == 5 {
        "_ns"@
    } else {
        "_ecrs"@
    }
}

/// The name of numeric field `k`: for each of the six blocks, seven prices and a quantity.
pub open spec fn numeric_name(k: int) -> Seq<char> {
    let block = (k / 8 + 1) as nat;
    let idx = k % 8;
    if idx == 7 {
        "quantity_mw"@ + decimal(block)
    } else {
        "price"@ + decimal(block) + price_suffix(idx)
    }
}

/// The 48 numeric field names in column order.
pub open spec fn numeric_names() -> Seq<Seq<char>> {
    Seq::new(48, |k: int| numeric_name(k))
}

/// The name of key field `idx`.
pub open spec fn key_field_name(idx: int) -> Seq<char> {
    if idx == 0 {
        "scd_timestamp"@
    } else if idx == 1 {
        "repeat_hour_flag"@
    } else if idx == 2 {
        "resource_name"@
    } else {
        "offer_type"@
    }
}

/// The expected CSV header: the four key fields, then the numeric fields.
pub open spec fn expected_header_texts() -> Seq<Seq<char>> {
    seq![key_field_name(0), key_field_name(1), key_field_name(2), key_field_name(3)] + numeric_names()
}

fn numeric_name_at(k: usize) -> (res: String)
    requires
        k < 48,
    ensures
        res@ == numeric_name(k as int),
{
    let block = k / 8 + 1;
    let idx = k % 8;
    if idx == 7 {
        let mut s = String::from_str("quantity_mw");
        push_decimal(&mut s, block as u128);
        return s;
    }
    let mut s = String::from_str("price");
    push_decimal(&mut s, block as u128);
    let suffix = if idx == 0 {
        "_urs"
    } else if idx == 1 {
        "_drs"
    } else if idx == 2 {
        "_rrspf"
    } else if idx == 3 {
        "_rrsuf"
    } else if idx == 4 {
        "_rrsff"
    } else if idx == 5 {
        "_ns"
    } else {
        "_ecrs"
    };
    push_str(&mut s, suffix);
    proof {
        assert(suffix@ == price_suffix(idx as int));
    }
    s
}

/// The 48 numeric field names in column order.
pub fn numeric_field_names() -> (res: Vec<String>)
    ensures
        texts(res@) == numeric_names(),
{
    let mut names: Vec<String> = Vec::new();
    let mut k: usize = 0;
    while k < 48
        invariant
            k <= 48,
            texts(names@) == numeric_names().take(k as int),
        decreases 48 - k,
    {
        let name = numeric_name_at(k);
        let ghost before = names@;
        names.push(name);
        k += 1;
        proof {
            assert(texts(names@) =~= texts(before).push(name@));
            assert(numeric_names().take(k as int) =~= numeric_names().take(k - 1).push(numeric_name(k - 1)));
        }
    }
    proof {
        assert(numeric_names().take(48) =~= numeric_names());
    }
    names
}

/// The expected CSV header.
pub fn expected_headers() -> (res: Vec<String>)
    ensures
        texts(res@) == expected_header_texts(),
{
    let mut headers: Vec<String> = Vec::new();
    headers.push(String::from_str("scd_timestamp"));
    headers.push(String::from_str("repeat_hour_flag"));
    headers.push(String::from_str("resource_name"));
    headers.push(String::from_str("offer_type"));
    let ghost first = texts(headers@);
    proof {
        assert(first =~= seq![key_field_name(0), key_field_name(1), key_field_name(2), key_field_name(3)]);
    }
    let names = numeric_field_names();
    let mut i: usize = 0;
    while i < names.len()
        invariant
            i <= names@.len(),
            texts(names@) == numeric_names(),
            texts(headers@) == first + numeric_names().take(i as int),
        decreases names@.len() - i,
    {
        let ghost before = headers@;
        headers.push(names[i].clone());
        i += 1;
        proof {
            assert(texts(names@)[i - 1] == names@[i - 1]@);
            assert(texts(headers@) =~= texts(before).push(names@[i - 1]@));
            assert(numeric_names().take(i as int) =~= numeric_names().take(i - 1).push(numeric_names()[i - 1]));
        }
    }
    proof {
        assert(numeric_names().take(48) =~= numeric_names());
    }
    headers
}

/// A required key field: its trimmed text, which must not be empty.
pub open spec fn required_text(vals: Seq<Seq<char>>, idx: int) -> Result<Seq<char>, ParseErrorView> {
    let v = trim_text(vals[idx]);
    if v.len() == 0 {
        Err(ParseErrorView::MissingValue(key_field_name(idx)))
    } else {
        Ok(v)
    }
}

/// The repeat-hour flag, strictly lower case: `true` or `false` after trimming.
pub open spec fn bool_value(raw: Seq<char>) -> Result<bool, ParseErrorView> {
    let t = trim_text(raw);
    if t == "true"@ {
        Ok(true)
    } else if t == "false"@ {
        Ok(false)
    } else {
        Err(ParseErrorView::InvalidBoolean(raw))
    }
}

/// The normalized text of an empty or `null` numeric field.
pub open spec fn zero_numeric() -> Seq<char> {
    "0.000000"@
}

/// An empty or (in any ASCII case) `null` numeric field.
pub open spec fn blank_or_null(t: Seq<char>) -> bool {
    t.len() == 0 || ascii_lower(t) == ascii_lower("null"@)
}

/// `out` is what numeric field `key` with raw text `raw` yields: zero for blank or
/// `null`, otherwise what the normalizer `f` returns for the trimmed text, or an
/// invalid-numeric error when it returns nothing.
pub open spec fn numeric_result<F: Fn(&str) -> Option<String>>(
    f: F,
    raw: Seq<char>,
    key: Seq<char>,
    out: Result<Seq<char>, ParseErrorView>,
) -> bool {
    let t = trim_text(raw);
    if blank_or_null(t) {
        out == Ok::<Seq<char>, ParseErrorView>(zero_numeric())
    } else {
        exists|s: &str, r: Option<String>|
            #[trigger] call_ensures(f, (s,), r) && s@ == t && out == match r {
                Some(v) => Ok(v@),
                None => Err(ParseErrorView::InvalidNumeric(key, t)),
            }
    }
}

/// Numeric field `key` with raw text `raw` is accepted.
pub open spec fn numeric_accepts<F: Fn(&str) -> Option<String>>(f: F, raw: Seq<char>, key: Seq<char>) -> bool {
    exists|v: Seq<char>| #[trigger] numeric_result(f, raw, key, Ok(v))
}

/// `res` is what the trimmed row values `vals` (52 of them) yield as a record.
pub open spec fn record_outcome<F: Fn(&str) -> Option<String>>(
    f: F,
    vals: Seq<Seq<char>>,
    res: Result<OfferView, ParseErrorView>,
) -> bool {
    match required_text(vals, 0) {
        Err(e) => res == Err::<OfferView, _>(e),
        Ok(ts) => match required_text(vals, 1) {
            Err(e) => res == Err::<OfferView, _>(e),
            Ok(rb) => match bool_value(rb) {
                Err(e) => res == Err::<OfferView, _>(e),
                Ok(rep) => match required_text(vals, 2) {
                    Err(e) => res == Err::<OfferView, _>(e),
                    Ok(name) => match required_text(vals, 3) {
                        Err(e) => res == Err::<OfferView, _>(e),
                        Ok(offer) => match res {
                            Ok(r) => r.ts == ts && r.repeat == rep && r.resource == name && r.offer
                                == offer && r.values.len() == 48 && forall|k: int|
                                0 <= k < 48 ==> #[trigger] numeric_result(
                                    f,
                                    vals[4 + k],
                                    numeric_name(k),
                                    Ok(r.values[k]),
                                ),
                            Err(e) => exists|k: int|
                                0 <= k < 48 && #[trigger] numeric_result(
                                    f,
                                    vals[4 + k],
                                    numeric_name(k),
                                    Err(e),
                                ) && forall|j: int|
                                    0 <= j < k ==> numeric_accepts(f, vals[4 + j], numeric_name(j)),
                        },
                    },
                },
            },
        },
    }
}

} // verus!

verus! {

/// Each text with leading and trailing white space removed.
pub open spec fn trimmed_texts(v: Seq<Seq<char>>) -> Seq<Seq<char>> {
    v.map_values(|t: Seq<char>| trim_text(t))
}

/// The message for a data row of `n` fields under the 52-field header.
pub open spec fn row_width_message(n: nat) -> Seq<char> {
    "row has "@ + decimal(n) + " values but header has "@ + decimal(52)
}

/// Raw row `row` is accepted as some record.
pub open spec fn row_accepts<F: Fn(&str) -> Option<String>>(f: F, row: Seq<Seq<char>>) -> bool {
    row.len() == 52 && exists|r: OfferView| #[trigger] record_outcome(f, trimmed_texts(row), Ok(r))
}

/// Raw row `row` is refused with `e`.
pub open spec fn row_fails<F: Fn(&str) -> Option<String>>(
    f: F,
    row: Seq<Seq<char>>,
    e: ParseErrorView,
) -> bool {
    if row.len() != 52 {
        e == ParseErrorView::MalformedCsv(row_width_message(row.len()))
    } else {
        record_outcome(f, trimmed_texts(row), Err(e))
    }
}

/// `res` is what parsing CSV bytes `input` yields with numeric normalizer `f`: a
/// header error or schema mismatch, the first refused row's error, the reader's
/// error after the rows before it, or one record per row in file order.
pub open spec fn csv_outcome<F: Fn(&str) -> Option<String>>(
    f: F,
    input: Seq<u8>,
    res: Result<Seq<OfferView>, ParseErrorView>,
) -> bool {
    match csv_table(input) {
        Err(m) => res == Err::<Seq<OfferView>, _>(ParseErrorView::MalformedCsv(m)),
        Ok(table) => {
            let headers = table.0;
            let rows = table.1;
            let err = table.2;
            if trimmed_texts(headers) != expected_header_texts() {
                res == Err::<Seq<OfferView>, _>(ParseErrorView::CsvSchemaMismatch)
            } else {
                match res {
                    Ok(recs) => err is None && recs.len() == rows.len() && forall|i: int|
                        0 <= i < rows.len() ==> rows[i].len() == 52 && #[trigger] record_outcome(
                            f,
                            trimmed_texts(rows[i]),
                            Ok(recs[i]),
                        ),
                    Err(e) => (exists|i: int|
                        0 <= i < rows.len() && #[trigger] row_fails(f, rows[i], e) && forall|j: int|
                            0 <= j < i ==> row_accepts(f, rows[j])) || ((forall|j: int|
                        0 <= j < rows.len() ==> row_accepts(f, rows[j])) && err is Some && e
                        == ParseErrorView::MalformedCsv(err->0)),
                }
            }
        },
    }
}

/// Each string of `row`, trimmed.
fn trim_all(row: &Vec<String>) -> (res: Vec<String>)
    ensures
        texts(res@) == trimmed_texts(texts(row@)),
{
    let mut out: Vec<String> = Vec::new();
    let mut i: usize = 0;
    while i < row.len()
        invariant
            i <= row@.len(),
            texts(out@) == trimmed_texts(texts(row@)).take(i as int),
        decreases row@.len() - i,
    {
        let t = trim(row[i].as_str());
        let ghost before = out@;
        out.push(t);
        i += 1;
        proof {
            assert(texts(out@) =~= texts(before).push(t@));
            assert(trimmed_texts(texts(row@)).take(i as int) =~= trimmed_texts(texts(row@)).take(
                i - 1,
            ).push(trim_text(row@[i - 1]@)));
        }
    }
    proof {
        assert(trimmed_texts(texts(row@)).take(i as int) =~= trimmed_texts(texts(row@)));
    }
    out
}

/// Whether two string vectors hold the same texts.
fn texts_equal(a: &Vec<String>, b: &Vec<String>) -> (res: bool)
    ensures
        res == (texts(a@) == texts(b@)),
{
    if a.len() != b.len() {
        proof {
            assert(texts(a@).len() != texts(b@).len());
        }
        return false;
    }
    let mut i: usize = 0;
    while i < a.len()
        invariant
            i <= a@.len(),
            a@.len() == b@.len(),
            forall|j: int| 0 <= j < i ==> a@[j]@ == b@[j]@,
        decreases a@.len() - i,
    {
        if a[i] != b[i] {
            proof {
                assert(texts(a@)[i as int] != texts(b@)[i as int]);
            }
            return false;
        }
        i += 1;
    }
    proof {
        assert(texts(a@) =~= texts(b@));
    }
    true
}

/// The name of key field `idx`.
fn key_field_string(idx: usize) -> (res: String)
    requires
        idx < 4,
    ensures
        res@ == key_field_name(idx as int),
{
    if idx == 0 {
        String::from_str("scd_timestamp")
    } else if idx == 1 {
        String::from_str("repeat_hour_flag")
    } else if idx == 2 {
        String::from_str("resource_name")
    } else {
        String::from_str("offer_type")
    }
}

/// Key field `idx` of `values`, trimmed; it must not be empty.
fn required_string(values: &Vec<String>, idx: usize) -> (res: Result<String, ParseError>)
    requires
        idx < 4,
        idx < values@.len(),
    ensures
        match res {
            Ok(s) => required_text(texts(values@), idx as int) == Ok::<_, ParseErrorView>(s@),
            Err(e) => required_text(texts(values@), idx as int) == Err::<Seq<char>, _>(e@),
        },
{
    let value = trim(values[idx].as_str());
    if value.as_str().unicode_len() == 0 {
        return Err(ParseError::MissingValue(key_field_string(idx)));
    }
    Ok(value)
}

/// Whether `t` spells `lit`.
fn text_is(t: &String, lit: &str) -> (res: bool)
    ensures
        res == (t@ == lit@),
{
    *t == String::from_str(lit)
}

/// The repeat-hour flag spelled by `raw`.
fn parse_bool(raw: &str) -> (res: Result<bool, ParseError>)
    ensures
        match res {
            Ok(b) => bool_value(raw@) == Ok::<_, ParseErrorView>(b),
            Err(e) => bool_value(raw@) == Err::<bool, _>(e@),
        },
{
    let t = trim(raw);
    if text_is(&t, "true") {
        Ok(true)
    } else if text_is(&t, "false") {
        Ok(false)
    } else {
        Err(ParseError::InvalidBoolean(String::from_str(raw)))
    }
}


/// Numeric field `k` with raw text `raw`: zero for blank or `null`, otherwise what
/// `normalize` gives for the trimmed text.
fn normalize_numeric<F: Fn(&str) -> Option<String>>(normalize: &F, raw: &str, k: usize) -> (res: Result<String, ParseError>)
    requires
        k < 48,
        forall|s: &str| call_requires(*normalize, (s,)),
    ensures
        numeric_result(
            *normalize,
            raw@,
            numeric_name(k as int),
            match res {
                Ok(v) => Ok(v@),
                Err(e) => Err(e@),
            },
        ),
{
    let trimmed = trim(raw);
    proof {
        reveal_strlit("null");
    }
    if trimmed.as_str().unicode_len() == 0 || eq_ignore_ascii_case(trimmed.as_str(), "null") {
        proof {
            reveal_strlit("0.000000");
        }
        return Ok(String::from_str("0.000000"));
    }
    let ts = trimmed.as_str();
    let r = normalize(ts);
    proof {
        assert(call_ensures(*normalize, (ts,), r));
    }
    match r {
        Some(v) => Ok(v),
        None => Err(ParseError::InvalidNumeric(numeric_name_at(k), trimmed)),
    }
}


/// `<[String; 48] as TryFrom<Vec<String>>>::try_from`: claimed to succeed exactly on
/// a vector of 48 strings, giving the array of the same strings in the same order.
#[verifier::external_body]
fn array_of_48(v: Vec<String>) -> (res: Option<[String; 48]>)
    ensures
        res is Some <==> v@.len() == 48,
        res is Some ==> res->0@ == v@,
{
    <[String; 48]>::try_from(v).ok()
}

/// The record that the 52 trimmed fields `values` spell.
fn record_from_values<F: Fn(&str) -> Option<String>>(normalize: &F, values: &Vec<String>) -> (res: Result<ScedResourceOfferRecord, ParseError>)
    requires
        values@.len() == 52,
        forall|s: &str| call_requires(*normalize, (s,)),
    ensures
        record_outcome(
            *normalize,
            texts(values@),
            match res {
                Ok(r) => Ok(r@),
                Err(e) => Err(e@),
            },
        ),
{
    let ghost vals = texts(values@);
    let scd_timestamp = match required_string(values, 0) {
        Ok(v) => v,
        Err(e) => return Err(e),
    };
    let flag_text = match required_string(values, 1) {
        Ok(v) => v,
        Err(e) => return Err(e),
    };
    let repeat_hour_flag = match parse_bool(flag_text.as_str()) {
        Ok(b) => b,
        Err(e) => return Err(e),
    };
    let resource_name = match required_string(values, 2) {
        Ok(v) => v,
        Err(e) => return Err(e),
    };
    let offer_type = match required_string(values, 3) {
        Ok(v) => v,
        Err(e) => return Err(e),
    };
    let mut numeric: Vec<String> = Vec::new();
    let mut k: usize = 0;
    while k < 48
        invariant
            k <= 48,
            values@.len() == 52,
            vals == texts(values@),
            forall|s: &str| call_requires(*normalize, (s,)),
            required_text(vals, 0) == Ok::<_, ParseErrorView>(scd_timestamp@),
            required_text(vals, 1) == Ok::<_, ParseErrorView>(flag_text@),
            bool_value(flag_text@) == Ok::<_, ParseErrorView>(repeat_hour_flag),
            required_text(vals, 2) == Ok::<_, ParseErrorView>(resource_name@),
            required_text(vals, 3) == Ok::<_, ParseErrorView>(offer_type@),
            numeric@.len() == k,
            forall|j: int|
                0 <= j < k ==> #[trigger] numeric_result(
                    *normalize,
                    vals[4 + j],
                    numeric_name(j),
                    Ok(numeric@[j]@),
                ),
        decreases 48 - k,
    {
        let v = match normalize_numeric(normalize, values[4 + k].as_str(), k) {
            Ok(v) => v,
            Err(e) => {
                proof {
                    assert(numeric_result(*normalize, vals[4 + k as int], numeric_name(k as int), Err(e@)));
                    assert forall|j: int| 0 <= j < k implies numeric_accepts(
                        *normalize,
                        vals[4 + j],
                        numeric_name(j),
                    ) by {
                        assert(numeric_result(*normalize, vals[4 + j], numeric_name(j), Ok(numeric@[j]@)));
                    }
                    let kk = k as int;
                    assert(0 <= kk < 48 && numeric_result(*normalize, vals[4 + kk], numeric_name(kk), Err(e@))
                        && forall|j: int| 0 <= j < kk ==> numeric_accepts(*normalize, vals[4 + j], numeric_name(j)));
                }
                return Err(e);
            },
        };
        let ghost before = numeric@;
        numeric.push(v);
        proof {
            assert forall|j: int| 0 <= j < k + 1 implies #[trigger] numeric_result(
                *normalize,
                vals[4 + j],
                numeric_name(j),
                Ok(numeric@[j]@),
            ) by {
                if j < k {
                    assert(numeric@[j] == before[j]);
                }
            }
        }
        k += 1;
    }
    let ghost fields = numeric@;
    let prices_and_quantities = match array_of_48(numeric) {
        Some(a) => a,
        None => return Err(ParseError::MalformedCsv(String::from_str("expected 48 numeric values"))),
    };
    let r = ScedResourceOfferRecord {
        scd_timestamp,
        repeat_hour_flag,
        resource_name,
        offer_type,
        prices_and_quantities,
    };
    proof {
        assert forall|j: int| 0 <= j < 48 implies #[trigger] numeric_result(
            *normalize,
            vals[4 + j],
            numeric_name(j),
            Ok(r@.values[j]),
        ) by {
            assert(r@.values[j] == fields[j]@);
        }
    }
    Ok(r)
}


/// The message for a data row of `n` fields under a header of `width` fields.
fn row_width_error(n: usize, width: usize) -> (res: String)
    ensures
        res@ == "row has "@ + decimal(n as nat) + " values but header has "@ + decimal(width as nat),
{
    let mut m = String::from_str("row has ");
    push_decimal(&mut m, n as u128);
    push_str(&mut m, " values but header has ");
    push_decimal(&mut m, width as u128);
    m
}

/// Parses SCED offer CSV bytes into records, in file order. The header must be
/// exactly the canonical 52 field names (after trimming); each data row must have
/// 52 fields. Key fields are trimmed and required, the repeat-hour flag is
/// `true` or `false` (strictly lower case), and each numeric field is zero when blank or
/// `null` and otherwise what `normalize_numeric` gives for its trimmed text
/// (`None` refuses the field).
pub fn parse_csv<F: Fn(&str) -> Option<String>>(input: &[u8], normalize_numeric: F) -> (res: Result<Vec<ScedResourceOfferRecord>, ParseError>)
    requires
        forall|s: &str| call_requires(normalize_numeric, (s,)),
    ensures
        csv_outcome(
            normalize_numeric,
            input@,
            match res {
                Ok(v) => Ok(offer_views(v@)),
                Err(e) => Err(e@),
            },
        ),
{
    let table = match csv_read(input) {
        Ok(t) => t,
        Err(m) => return Err(ParseError::MalformedCsv(m)),
    };
    let ghost rows = row_texts(table.rows@);
    let found = trim_all(&table.headers);
    let expected = expected_headers();
    if !texts_equal(&found, &expected) {
        return Err(ParseError::CsvSchemaMismatch);
    }
    proof {
        assert(texts(found@).len() == 52);
    }
    let mut records: Vec<ScedResourceOfferRecord> = Vec::new();
    let mut i: usize = 0;
    while i < table.rows.len()
        invariant
            i <= table.rows@.len(),
            rows == row_texts(table.rows@),
            csv_table(input@) == Ok::<_, Seq<char>>(
                (texts(table.headers@), rows, match table.error {
                    Some(m) => Some(m@),
                    None => None,
                }),
            ),
            trimmed_texts(texts(table.headers@)) == expected_header_texts(),
            texts(found@) == expected_header_texts(),
            found@.len() == 52,
            forall|s: &str| call_requires(normalize_numeric, (s,)),
            records@.len() == i,
            forall|j: int|
                0 <= j < i ==> rows[j].len() == 52 && #[trigger] record_outcome(
                    normalize_numeric,
                    trimmed_texts(rows[j]),
                    Ok(records@[j]@),
                ),
        decreases table.rows@.len() - i,
    {
        let raw_values = trim_all(&table.rows[i]);
        proof {
            assert(rows[i as int] == texts(table.rows@[i as int]@));
            assert forall|j: int| 0 <= j < i implies row_accepts(normalize_numeric, rows[j]) by {
                assert(record_outcome(normalize_numeric, trimmed_texts(rows[j]), Ok(records@[j]@)));
            }
        }
        if raw_values.len() != found.len() {
            let m = row_width_error(raw_values.len(), found.len());
            proof {
                assert(texts(raw_values@).len() == rows[i as int].len());
                assert(row_fails(normalize_numeric, rows[i as int], ParseErrorView::MalformedCsv(m@)));
            }
            return Err(ParseError::MalformedCsv(m));
        }
        proof {
            assert(texts(raw_values@) == trimmed_texts(rows[i as int]));
            assert(texts(raw_values@).len() == raw_values@.len());
            assert(trimmed_texts(rows[i as int]).len() == rows[i as int].len());
            assert(rows[i as int].len() == 52);
        }
        let r = match record_from_values(&normalize_numeric, &raw_values) {
            Ok(r) => r,
            Err(e) => {
                proof {
                    assert(row_fails(normalize_numeric, rows[i as int], e@));
                }
                return Err(e);
            },
        };
        let ghost before = records@;
        records.push(r);
        proof {
            assert forall|j: int|
                0 <= j < i + 1 implies rows[j].len() == 52 && #[trigger] record_outcome(
                normalize_numeric,
                trimmed_texts(rows[j]),
                Ok(records@[j]@),
            ) by {
                if j < i {
                    assert(records@[j] == before[j]);
                }
            }
        }
        i += 1;
    }
    proof {
        assert(rows.len() == table.rows@.len());
        assert forall|j: int| 0 <= j < rows.len() implies row_accepts(normalize_numeric, rows[j]) by {
            assert(record_outcome(normalize_numeric, trimmed_texts(rows[j]), Ok(records@[j]@)));
        }
    }
    match table.error {
        Some(m) => Err(ParseError::MalformedCsv(m)),
        None => Ok(records),
    }
}

} // verus!
