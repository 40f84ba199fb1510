//! Canonical SCED resource-offer records, their SHA-256 hash chain, and the
//! verifiers that re-derive the chain from records or from serialized payload bytes.

use vstd::prelude::*;
use crate::text::{decimal, push_decimal, push_str, string_push, str_chars};
use crate::digest::{sha256_hex_of, sha256_hex_str};

verus! {

/// One SCED resource offer: its primary key and 48 normalized price/quantity fields.
#[derive(Clone, Debug, PartialEq, Eq)]
pub struct ScedResourceOfferRecord {
    pub scd_timestamp: String,
    pub repeat_hour_flag: bool,
    pub resource_name: String,
    pub offer_type: String,
    pub prices_and_quantities: [String; 48],
}

/// A record's place in the chain: its key, its own hash and the running chain hash.
#[derive(Debug, PartialEq, Eq)]
pub struct ChainedRecord {
    pub key: (String, bool, String, String),
    pub record_hash: String,
    pub chain_hash: String,
}

/// Why a set of offers could not be canonicalized.
#[derive(Clone, Debug, PartialEq, Eq)]
pub enum ParseError {
    CsvSchemaMismatch,
    MissingValue(String),
    InvalidBoolean(String),
    InvalidNumeric(String, String),
    DuplicatePrimaryKey(String, bool, String, String),
    MalformedCsv(String),
}

/// Error codes of the chain verifier.
#[derive(PartialEq, Eq, Structural, Clone, Copy, Debug)]
pub enum VerifyCode {
    DuplicatePk,
    InvalidNumeric,
    InvalidBoolean,
    HashMismatch,
    CsvSchemaMismatch,
    RecordCountMismatch,
    ChainContinuityBreak,
    CsvMalformed,
}

/// The primary key of the record an error refers to (all empty when none does).
#[derive(Clone, Debug, PartialEq, Eq)]
pub struct RecordKey {
    pub scd_timestamp: String,
    pub repeat_hour_flag: bool,
    pub resource_name: String,
    pub offer_type: String,
}

/// One verifier finding.
#[derive(Clone, Debug, PartialEq, Eq)]
pub struct VerifyError {
    pub code: VerifyCode,
    pub message: String,
    pub record_key: RecordKey,
}

/// The outcome of a chain verification.
#[derive(Clone, Debug, PartialEq, Eq)]
pub struct VerifierReport {
    pub status: String,
    pub records_total: usize,
    pub records_verified: usize,
    pub final_chain_hash: String,
    pub expected_final_chain_hash: Option<String>,
    pub mismatch_index: Option<usize>,
    pub errors: Vec<VerifyError>,
}

/// Versions and record count of a canonical truth package.
#[derive(Clone, Debug, PartialEq, Eq)]
pub struct CanonicalTruthMetadata {
    pub schema_version: String,
    pub hash_spec_version: String,
    pub records_total: usize,
}

/// Sorted records, their length-prefixed canonical serialization, and their hash chain.
#[derive(Debug, PartialEq, Eq)]
pub struct CanonicalTruthPackage {
    pub canonical_payload_bytes: Vec<u8>,
    pub records: Vec<ScedResourceOfferRecord>,
    pub chain: Vec<ChainedRecord>,
    pub final_chain_hash: String,
    pub metadata: CanonicalTruthMetadata,
}

pub const SCED_SCHEMA_VERSION: &'static str = "sced.v1";

pub const SCED_HASH_SPEC_VERSION: &'static str = "sha256.chain.v1";

// ---------------------------------------------------------------------------
// Mathematical model
// ---------------------------------------------------------------------------

/// A record as plain text values.
pub struct OfferView {
    pub ts: Seq<char>,
    pub repeat: bool,
    pub resource: Seq<char>,
    pub offer: Seq<char>,
    pub values: Seq<Seq<char>>,
}

/// A primary key as plain text values.
pub type KeyView = (Seq<char>, bool, Seq<char>, Seq<char>);

impl View for ScedResourceOfferRecord {
    type V = OfferView;

    open spec fn view(&self) -> OfferView {
        OfferView {
            ts: self.scd_timestamp@,
            repeat: self.repeat_hour_flag,
            resource: self.resource_name@,
            offer: self.offer_type@,
            values: self.prices_and_quantities@.map_values(|s: String| s@),
        }
    }
}

/// The views of a sequence of records.
pub open spec fn offer_views(s: Seq<ScedResourceOfferRecord>) -> Seq<OfferView> {
    s.map_values(|r: ScedResourceOfferRecord| r@)
}

/// The primary key of a record.
pub open spec fn key_of(r: OfferView) -> KeyView {
    (r.ts, r.repeat, r.resource, r.offer)
}

/// Lexicographic comparison of texts by code point: -1, 0 or 1.
pub open spec fn text_order(a: Seq<char>, b: Seq<char>) -> int
    decreases a.len(),
{
    if a.len() == 0 {
        if b.len() == 0 {
            0
        } else {
            -1
        }
    } else if b.len() == 0 {
        1
    } else if (a[0] as u32) < (b[0] as u32) {
        -1
    } else if (a[0] as u32) > (b[0] as u32) {
        1
    } else {
        text_order(a.drop_first(), b.drop_first())
    }
}

/// Order of primary keys: timestamp, then repeat-hour flag (false first), then
/// resource name, then offer type.
pub open spec fn key_order(a: KeyView, b: KeyView) -> int {
    let c0 = text_order(a.0, b.0);
    if c0 != 0 {
        c0
    } else if a.1 != b.1 {
        if !a.1 {
            -1
        } else {
            1
        }
    } else {
        let c2 = text_order(a.2, b.2);
        if c2 != 0 {
            c2
        } else {
            text_order(a.3, b.3)
        }
    }
}

/// Inserts `x` into `s` after every element whose key is not greater than its own.
pub open spec fn insert_by_key(s: Seq<OfferView>, x: OfferView) -> Seq<OfferView>
    decreases s.len(),
{
    if s.len() == 0 {
        seq![x]
    } else if key_order(key_of(x), key_of(s.last())) >= 0 {
        s.push(x)
    } else {
        insert_by_key(s.drop_last(), x).push(s.last())
    }
}

/// The stable sort of records by primary key.
pub open spec fn sort_by_key(s: Seq<OfferView>) -> Seq<OfferView>
    decreases s.len(),
{
    if s.len() == 0 {
        Seq::empty()
    } else {
        insert_by_key(sort_by_key(s.drop_last()), s.last())
    }
}

/// `"true"` or `"false"`.
pub open spec fn bool_text(b: bool) -> Seq<char> {
    if b {
        seq!['t', 'r', 'u', 'e']
    } else {
        seq!['f', 'a', 'l', 's', 'e']
    }
}

/// The fields joined with `|`.
pub open spec fn join_pipe(fields: Seq<Seq<char>>) -> Seq<char>
    decreases fields.len(),
{
    if fields.len() == 0 {
        Seq::empty()
    } else if fields.len() == 1 {
        fields[0]
    } else {
        join_pipe(fields.drop_last()) + seq!['|'] + fields.last()
    }
}

/// The fields of a record in canonical order.
pub open spec fn canonical_fields(r: OfferView) -> Seq<Seq<char>> {
    seq![r.ts, bool_text(r.repeat), r.resource] + r.values + seq![r.offer]
}

/// The canonical text of a record.
pub open spec fn canonical_text(r: OfferView) -> Seq<char> {
    join_pipe(canonical_fields(r))
}

/// Joining two non-empty runs of fields joins their joined texts with one `'|'`.
pub proof fn lemma_join_pipe_concat(a: Seq<Seq<char>>, b: Seq<Seq<char>>)
    requires
        a.len() > 0,
        b.len() > 0,
    ensures
        join_pipe(a + b) == join_pipe(a) + seq!['|'] + join_pipe(b),
    decreases b.len(),
{
    if b.len() == 1 {
        assert((a + b).drop_last() =~= a);
        assert((a + b).last() == b[0]);
    } else {
        lemma_join_pipe_concat(a, b.drop_last());
        assert((a + b).drop_last() =~= a + b.drop_last());
        assert((a + b).last() == b.last());
        assert(join_pipe(a) + seq!['|'] + join_pipe(b) =~= join_pipe(a) + seq!['|'] + join_pipe(
            b.drop_last(),
        ) + seq!['|'] + b.last());
    }
}

/// The canonical text of a record with price and quantity fields: timestamp,
/// `true`/`false`, resource name, the price and quantity fields joined with `'|'`,
/// and offer type, in that order, separated by `'|'`.
pub proof fn lemma_canonical_text_layout(r: OfferView)
    requires
        r.values.len() > 0,
    ensures
        canonical_text(r) == r.ts + seq!['|'] + (if r.repeat {
            seq!['t', 'r', 'u', 'e']
        } else {
            seq!['f', 'a', 'l', 's', 'e']
        }) + seq!['|'] + r.resource + seq!['|'] + join_pipe(r.values) + seq!['|'] + r.offer,
{
    let head: Seq<Seq<char>> = seq![r.ts, bool_text(r.repeat), r.resource];
    assert(canonical_fields(r) =~= (head + r.values) + seq![r.offer]);
    lemma_join_pipe_concat(head + r.values, seq![r.offer]);
    lemma_join_pipe_concat(head, r.values);
    let first_two: Seq<Seq<char>> = seq![r.ts, bool_text(r.repeat)];
    assert(head.drop_last() =~= first_two);
    assert(first_two.drop_last() =~= seq![r.ts]);
    assert(join_pipe(seq![r.ts]) == r.ts);
    assert(join_pipe(first_two) == r.ts + seq!['|'] + bool_text(r.repeat));
    assert(join_pipe(head) =~= r.ts + seq!['|'] + bool_text(r.repeat) + seq!['|'] + r.resource);
}

/// The record hash: lowercase hex SHA-256 of the canonical text's UTF-8 bytes.
pub open spec fn record_hash_of(r: OfferView) -> Seq<char> {
    sha256_hex_of(vstd::utf8::encode_utf8(canonical_text(r)))
}

/// The chain link hash: lowercase hex SHA-256 of `prev|record_hash`.
pub open spec fn link_hash(prev: Seq<char>, record_hash: Seq<char>) -> Seq<char> {
    sha256_hex_of(vstd::utf8::encode_utf8(prev + seq!['|'] + record_hash))
}

/// The genesis chain hash `"0"`.
pub open spec fn genesis() -> Seq<char> {
    seq!['0']
}

/// The chain hash after the record at index `i` of the sorted records `s`.
pub open spec fn chain_hash_at(s: Seq<OfferView>, i: int) -> Seq<char>
    decreases i,
{
    if i <= 0 {
        link_hash(genesis(), record_hash_of(s[0]))
    } else {
        link_hash(chain_hash_at(s, i - 1), record_hash_of(s[i]))
    }
}

/// Inserting into a sequence adds one element.
pub proof fn lemma_insert_len(s: Seq<OfferView>, x: OfferView)
    ensures
        insert_by_key(s, x).len() == s.len() + 1,
    decreases s.len(),
{
    if s.len() > 0 && key_order(key_of(x), key_of(s.last())) < 0 {
        lemma_insert_len(s.drop_last(), x);
    }
}

/// Sorting keeps the number of records.
pub proof fn lemma_sort_len(s: Seq<OfferView>)
    ensures
        sort_by_key(s).len() == s.len(),
    decreases s.len(),
{
    if s.len() > 0 {
        lemma_sort_len(s.drop_last());
        lemma_insert_len(sort_by_key(s.drop_last()), s.last());
    }
}

/// A chain entry as plain values.
pub struct ChainView {
    pub key: KeyView,
    pub record_hash: Seq<char>,
    pub chain_hash: Seq<char>,
}

impl View for ChainedRecord {
    type V = ChainView;

    open spec fn view(&self) -> ChainView {
        ChainView {
            key: (self.key.0@, self.key.1, self.key.2@, self.key.3@),
            record_hash: self.record_hash@,
            chain_hash: self.chain_hash@,
        }
    }
}

/// The views of a sequence of chain entries.
pub open spec fn chain_views(c: Seq<ChainedRecord>) -> Seq<ChainView> {
    c.map_values(|r: ChainedRecord| r@)
}

/// The hash chain of the sorted records `s`.
pub open spec fn chain_of(s: Seq<OfferView>) -> Seq<ChainView> {
    Seq::new(
        s.len(),
        |i: int|
            ChainView {
                key: key_of(s[i]),
                record_hash: record_hash_of(s[i]),
                chain_hash: chain_hash_at(s, i),
            },
    )
}

/// The final chain hash of the sorted records `s` (`"0"` when there are none).
pub open spec fn final_hash_of(s: Seq<OfferView>) -> Seq<char> {
    if s.len() == 0 {
        genesis()
    } else {
        chain_hash_at(s, s.len() - 1)
    }
}

/// The link format of the hash chain: entry `i` carries the record hash of record
/// `i`, and its chain hash is the lowercase hex SHA-256 of the UTF-8 text made of
/// the previous chain hash (`"0"` for the first entry), a `'|'`, and the record
/// hash, in that order. The final chain hash is the last entry's chain hash, or
/// `"0"` when there are no records.
pub proof fn lemma_chain_link_format(s: Seq<OfferView>, i: int)
    requires
        0 <= i < s.len(),
    ensures
        chain_of(s).len() == s.len(),
        chain_of(s)[i].key == key_of(s[i]),
        chain_of(s)[i].record_hash == sha256_hex_of(vstd::utf8::encode_utf8(canonical_text(s[i]))),
        chain_of(s)[i].chain_hash == sha256_hex_of(
            vstd::utf8::encode_utf8(
                (if i == 0 {
                    seq!['0']
                } else {
                    chain_of(s)[i - 1].chain_hash
                }) + seq!['|'] + chain_of(s)[i].record_hash,
            ),
        ),
        final_hash_of(s) == chain_of(s)[s.len() - 1].chain_hash,
        final_hash_of(Seq::<OfferView>::empty()) == seq!['0'],
{
}

/// Records `i - 1` and `i` of `s` share a primary key.
pub open spec fn adjacent_dup(s: Seq<OfferView>, i: int) -> bool {
    1 <= i < s.len() && key_of(s[i - 1]) == key_of(s[i])
}

/// No two neighbours among the first `n` records of `s` share a primary key.
pub open spec fn no_dup_before(s: Seq<OfferView>, n: int) -> bool {
    forall|j: int| #![trigger adjacent_dup(s, j)] 1 <= j < n ==> !adjacent_dup(s, j)
}

/// A parse error as plain values.
pub enum ParseErrorView {
    CsvSchemaMismatch,
    MissingValue(Seq<char>),
    InvalidBoolean(Seq<char>),
    InvalidNumeric(Seq<char>, Seq<char>),
    DuplicatePrimaryKey(KeyView),
    MalformedCsv(Seq<char>),
}

impl View for ParseError {
    type V = ParseErrorView;

    open spec fn view(&self) -> ParseErrorView {
        match self {
            ParseError::CsvSchemaMismatch => ParseErrorView::CsvSchemaMismatch,
            ParseError::MissingValue(f) => ParseErrorView::MissingValue(f@),
            ParseError::InvalidBoolean(v) => ParseErrorView::InvalidBoolean(v@),
            ParseError::InvalidNumeric(f, v) => ParseErrorView::InvalidNumeric(f@, v@),
            ParseError::DuplicatePrimaryKey(a, b, c, d) => ParseErrorView::DuplicatePrimaryKey(
                (a@, *b, c@, d@),
            ),
            ParseError::MalformedCsv(m) => ParseErrorView::MalformedCsv(m@),
        }
    }
}

/// What chain construction yields for unsorted records `records`: the chain of their
/// key-sorted order, or the first duplicated key in that order.
pub open spec fn chain_outcome(
    records: Seq<OfferView>,
    res: Result<Seq<ChainView>, ParseErrorView>,
) -> bool {
    let s = sort_by_key(records);
    match res {
        Ok(c) => no_dup_before(s, s.len() as int) && c == chain_of(s),
        Err(e) => exists|i: int|
            #![trigger adjacent_dup(s, i)]
            adjacent_dup(s, i) && no_dup_before(s, i) && e == ParseErrorView::DuplicatePrimaryKey(
                key_of(s[i]),
            ),
    }
}

} // verus!

verus! {

// ---------------------------------------------------------------------------
// Verifier reports
// ---------------------------------------------------------------------------

impl View for RecordKey {
    type V = KeyView;

    open spec fn view(&self) -> KeyView {
        (self.scd_timestamp@, self.repeat_hour_flag, self.resource_name@, self.offer_type@)
    }
}

/// A verifier finding as plain values.
pub struct FindingView {
    pub code: VerifyCode,
    pub message: Seq<char>,
    pub key: KeyView,
}

impl View for VerifyError {
    type V = FindingView;

    open spec fn view(&self) -> FindingView {
        FindingView { code: self.code, message: self.message@, key: self.record_key@ }
    }
}

/// The views of a sequence of findings.
pub open spec fn finding_views(s: Seq<VerifyError>) -> Seq<FindingView> {
    s.map_values(|e: VerifyError| e@)
}

/// A verifier report as plain values.
pub struct ReportView {
    pub status: Seq<char>,
    pub records_total: usize,
    pub records_verified: usize,
    pub final_chain_hash: Seq<char>,
    pub expected_final_chain_hash: Option<Seq<char>>,
    pub mismatch_index: Option<usize>,
    pub errors: Seq<FindingView>,
}

impl View for VerifierReport {
    type V = ReportView;

    open spec fn view(&self) -> ReportView {
        ReportView {
            status: self.status@,
            records_total: self.records_total,
            records_verified: self.records_verified,
            final_chain_hash: self.final_chain_hash@,
            expected_final_chain_hash: match self.expected_final_chain_hash {
                Some(h) => Some(h@),
                None => None,
            },
            mismatch_index: self.mismatch_index,
            errors: finding_views(self.errors@),
        }
    }
}

/// The key of no record: all texts empty, flag false.
pub open spec fn unknown_key_view() -> KeyView {
    (Seq::empty(), false, Seq::empty(), Seq::empty())
}

/// `"PASS"` when there are no findings, `"FAIL"` otherwise.
pub open spec fn status_text(errors: Seq<FindingView>) -> Seq<char> {
    if errors.len() == 0 {
        "PASS"@
    } else {
        "FAIL"@
    }
}

/// The view of an optional borrowed text.
pub open spec fn opt_text(o: Option<&str>) -> Option<Seq<char>> {
    match o {
        Some(s) => Some(s@),
        None => None,
    }
}

/// The finding for an expected record count that differs from the actual one.
pub open spec fn count_finding(expected: usize, actual: usize) -> FindingView {
    FindingView {
        code: VerifyCode::RecordCountMismatch,
        message: "expected records_total="@ + decimal(expected as nat) + ", got "@ + decimal(
            actual as nat,
        ),
        key: unknown_key_view(),
    }
}

/// The finding for an expected final chain hash that differs from the actual one.
pub open spec fn final_hash_finding(expected: Seq<char>, actual: Seq<char>, key: KeyView) -> FindingView {
    FindingView {
        code: VerifyCode::HashMismatch,
        message: "expected final_chain_hash="@ + expected + ", got "@ + actual,
        key,
    }
}

/// The finding that reports a parse error.
pub open spec fn parse_error_finding(e: ParseErrorView) -> FindingView {
    match e {
        ParseErrorView::CsvSchemaMismatch => FindingView {
            code: VerifyCode::CsvSchemaMismatch,
            message: "CSV schema mismatch"@,
            key: unknown_key_view(),
        },
        ParseErrorView::MissingValue(f) => FindingView {
            code: VerifyCode::CsvMalformed,
            message: "missing value for field '"@ + f + "'"@,
            key: unknown_key_view(),
        },
        ParseErrorView::InvalidBoolean(v) => FindingView {
            code: VerifyCode::InvalidBoolean,
            message: "invalid boolean '"@ + v + "'"@,
            key: unknown_key_view(),
        },
        ParseErrorView::InvalidNumeric(f, v) => FindingView {
            code: VerifyCode::InvalidNumeric,
            message: "invalid numeric field '"@ + f + "' with value '"@ + v + "'"@,
            key: unknown_key_view(),
        },
        ParseErrorView::DuplicatePrimaryKey(k) => FindingView {
            code: VerifyCode::DuplicatePk,
            message: "duplicate primary key detected"@,
            key: k,
        },
        ParseErrorView::MalformedCsv(m) => FindingView {
            code: VerifyCode::CsvMalformed,
            message: m,
            key: unknown_key_view(),
        },
    }
}

/// The report of verifying `records` (in any order) against an optional expected
/// final chain hash and an optional expected record count.
pub open spec fn records_report(
    records: Seq<OfferView>,
    expected_hash: Option<Seq<char>>,
    expected_count: Option<usize>,
) -> ReportView {
    let n = records.len();
    if n == 0 {
        let e1 = match expected_count {
            Some(c) => if c != 0 {
                seq![count_finding(c, 0)]
            } else {
                Seq::empty()
            },
            None => Seq::empty(),
        };
        let e2 = match expected_hash {
            Some(h) => if h != genesis() {
                seq![final_hash_finding(h, genesis(), unknown_key_view())]
            } else {
                Seq::empty()
            },
            None => Seq::empty(),
        };
        let errors = e1 + e2;
        ReportView {
            status: status_text(errors),
            records_total: 0,
            records_verified: 0,
            final_chain_hash: genesis(),
            expected_final_chain_hash: expected_hash,
            mismatch_index: None,
            errors,
        }
    } else {
        let s = sort_by_key(records);
        if !no_dup_before(s, n as int) {
            let i = choose|i: int| #![trigger adjacent_dup(s, i)] adjacent_dup(s, i) && no_dup_before(s, i);
            ReportView {
                status: "FAIL"@,
                records_total: n as usize,
                records_verified: 0,
                final_chain_hash: Seq::empty(),
                expected_final_chain_hash: expected_hash,
                mismatch_index: None,
                errors: seq![parse_error_finding(ParseErrorView::DuplicatePrimaryKey(key_of(s[i])))],
            }
        } else {
            let fin = final_hash_of(s);
            let e1 = match expected_count {
                Some(c) => if c != n {
                    seq![count_finding(c, n as usize)]
                } else {
                    Seq::empty()
                },
                None => Seq::empty(),
            };
            let hash_bad = match expected_hash {
                Some(h) => h != fin,
                None => false,
            };
            let e2 = if hash_bad {
                seq![final_hash_finding(expected_hash.unwrap(), fin, key_of(s[n - 1]))]
            } else {
                Seq::empty()
            };
            let errors = e1 + e2;
            ReportView {
                status: status_text(errors),
                records_total: n as usize,
                records_verified: if errors.len() == 0 {
                    n as usize
                } else {
                    0
                },
                final_chain_hash: fin,
                expected_final_chain_hash: expected_hash,
                mismatch_index: if hash_bad {
                    Some((n - 1) as usize)
                } else {
                    None
                },
                errors,
            }
        }
    }
}

} // verus!

verus! {

fn unknown_key() -> (k: RecordKey)
    ensures
        k@ == unknown_key_view(),
{
    RecordKey {
        scd_timestamp: String::new(),
        repeat_hour_flag: false,
        resource_name: String::new(),
        offer_type: String::new(),
    }
}

fn record_key_from(key: &(String, bool, String, String)) -> (k: RecordKey)
    ensures
        k@ == (key.0@, key.1, key.2@, key.3@),
{
    RecordKey {
        scd_timestamp: key.0.clone(),
        repeat_hour_flag: key.1,
        resource_name: key.2.clone(),
        offer_type: key.3.clone(),
    }
}

fn status_of(errors: &Vec<VerifyError>) -> (s: String)
    ensures
        s@ == status_text(finding_views(errors@)),
{
    if errors.len() == 0 {
        String::from_str("PASS")
    } else {
        String::from_str("FAIL")
    }
}

fn count_error(expected: usize, actual: usize) -> (e: VerifyError)
    ensures
        e@ == count_finding(expected, actual),
{
    let mut m = String::from_str("expected records_total=");
    push_decimal(&mut m, expected as u128);
    push_str(&mut m, ", got ");
    push_decimal(&mut m, actual as u128);
    proof {
        assert(m@ =~= "expected records_total="@ + decimal(expected as nat) + ", got "@ + decimal(
            actual as nat,
        ));
    }
    VerifyError { code: VerifyCode::RecordCountMismatch, message: m, record_key: unknown_key() }
}

fn final_hash_error(expected: &str, actual: &str, key: RecordKey) -> (e: VerifyError)
    ensures
        e@ == final_hash_finding(expected@, actual@, key@),
{
    let mut m = String::from_str("expected final_chain_hash=");
    push_str(&mut m, expected);
    push_str(&mut m, ", got ");
    push_str(&mut m, actual);
    proof {
        assert(m@ =~= "expected final_chain_hash="@ + expected@ + ", got "@ + actual@);
    }
    VerifyError { code: VerifyCode::HashMismatch, message: m, record_key: key }
}

/// The verifier finding that reports `err`.
pub fn map_parse_error(err: ParseError) -> (e: VerifyError)
    ensures
        e@ == parse_error_finding(err@),
{
    match err {
        ParseError::CsvSchemaMismatch => VerifyError {
            code: VerifyCode::CsvSchemaMismatch,
            message: String::from_str("CSV schema mismatch"),
            record_key: unknown_key(),
        },
        ParseError::MissingValue(field) => {
            let mut m = String::from_str("missing value for field '");
            push_str(&mut m, field.as_str());
            push_str(&mut m, "'");
            VerifyError { code: VerifyCode::CsvMalformed, message: m, record_key: unknown_key() }
        },
        ParseError::InvalidBoolean(v) => {
            let mut m = String::from_str("invalid boolean '");
            push_str(&mut m, v.as_str());
            push_str(&mut m, "'");
            VerifyError { code: VerifyCode::InvalidBoolean, message: m, record_key: unknown_key() }
        },
        ParseError::InvalidNumeric(field, v) => {
            let mut m = String::from_str("invalid numeric field '");
            push_str(&mut m, field.as_str());
            push_str(&mut m, "' with value '");
            push_str(&mut m, v.as_str());
            push_str(&mut m, "'");
            proof {
                assert(m@ =~= "invalid numeric field '"@ + field@ + "' with value '"@ + v@ + "'"@);
            }
            VerifyError { code: VerifyCode::InvalidNumeric, message: m, record_key: unknown_key() }
        },
        ParseError::DuplicatePrimaryKey(ts, rep, res, typ) => VerifyError {
            code: VerifyCode::DuplicatePk,
            message: String::from_str("duplicate primary key detected"),
            record_key: RecordKey {
                scd_timestamp: ts,
                repeat_hour_flag: rep,
                resource_name: res,
                offer_type: typ,
            },
        },
        ParseError::MalformedCsv(msg) => VerifyError {
            code: VerifyCode::CsvMalformed,
            message: msg,
            record_key: unknown_key(),
        },
    }
}

fn owned_opt(o: Option<&str>) -> (res: Option<String>)
    ensures
        match res {
            Some(s) => opt_text(o) == Some(s@),
            None => opt_text(o) is None,
        },
{
    match o {
        Some(s) => Some(String::from_str(s)),
        None => None,
    }
}

/// The first duplicated key of the sorted records is the one every duplicate-key
/// report names.
proof fn lemma_first_dup_unique(s: Seq<OfferView>, i: int, j: int)
    requires
        adjacent_dup(s, i),
        no_dup_before(s, i),
        adjacent_dup(s, j),
        no_dup_before(s, j),
    ensures
        i == j,
{
    if i < j {
        assert(!adjacent_dup(s, i));
    } else if j < i {
        assert(!adjacent_dup(s, j));
    }
}

/// Verifies `records` by rebuilding their hash chain, optionally binding the final
/// chain hash and the record count.
pub fn verify_records(
    records: Vec<ScedResourceOfferRecord>,
    expected_final_chain_hash: Option<&str>,
    expected_records_total: Option<usize>,
) -> (report: VerifierReport)
    ensures
        report@ == records_report(
            offer_views(records@),
            opt_text(expected_final_chain_hash),
            expected_records_total,
        ),
{
    let ghost rv = offer_views(records@);
    let ghost expected = opt_text(expected_final_chain_hash);
    let records_total = records.len();
    if records_total == 0 {
        let mut errors: Vec<VerifyError> = Vec::new();
        let genesis_text = crate::canonical_core::canonicalize::genesis_hash();
        if let Some(expected_count) = expected_records_total {
            if expected_count != 0 {
                errors.push(count_error(expected_count, 0));
            }
        }
        let ghost e1 = finding_views(errors@);
        if let Some(expected_hash) = expected_final_chain_hash {
            if String::from_str(expected_hash) != genesis_text {
                errors.push(final_hash_error(expected_hash, genesis_text.as_str(), unknown_key()));
            }
        }
        let status = status_of(&errors);
        let report = VerifierReport {
            status,
            records_total: 0,
            records_verified: 0,
            final_chain_hash: genesis_text,
            expected_final_chain_hash: owned_opt(expected_final_chain_hash),
            mismatch_index: None,
            errors,
        };
        proof {
            let want = records_report(rv, expected, expected_records_total);
            assert(report@.errors =~= want.errors);
            assert(report@.expected_final_chain_hash == want.expected_final_chain_hash);
        }
        return report;
    }
    let chain = match crate::canonical_core::canonicalize::build_hash_chain(records) {
        Ok(v) => v,
        Err(err) => {
            let ghost s = sort_by_key(rv);
            proof {
                lemma_sort_len(rv);
                let i = choose|i: int|
                    #![trigger adjacent_dup(s, i)]
                    adjacent_dup(s, i) && no_dup_before(s, i) && err@
                        == ParseErrorView::DuplicatePrimaryKey(key_of(s[i]));
                let j = choose|j: int| #![trigger adjacent_dup(s, j)] adjacent_dup(s, j) && no_dup_before(s, j);
                lemma_first_dup_unique(s, i, j);
                assert(!no_dup_before(s, rv.len() as int)) by {
                    assert(adjacent_dup(s, i));
                }
            }
            let mut errors: Vec<VerifyError> = Vec::new();
            errors.push(map_parse_error(err));
            let report = VerifierReport {
                status: String::from_str("FAIL"),
                records_total,
                records_verified: 0,
                final_chain_hash: String::new(),
                expected_final_chain_hash: owned_opt(expected_final_chain_hash),
                mismatch_index: None,
                errors,
            };
            proof {
                let want = records_report(rv, expected, expected_records_total);
                assert(report@.errors =~= want.errors);
                assert(report@.expected_final_chain_hash == want.expected_final_chain_hash);
            }
            return report;
        },
    };
    let ghost s = sort_by_key(rv);
    proof {
        lemma_sort_len(rv);
        assert(chain_views(chain@) == chain_of(s));
        assert(chain@.len() == s.len());
    }
    let mut errors: Vec<VerifyError> = Vec::new();
    let mut mismatch_index: Option<usize> = None;
    if let Some(expected_count) = expected_records_total {
        if expected_count != chain.len() {
            errors.push(count_error(expected_count, chain.len()));
        }
    }
    let ghost e1 = finding_views(errors@);
    let mut prev = crate::canonical_core::canonicalize::genesis_hash();
    let mut idx: usize = 0;
    while idx < chain.len()
        invariant
            idx <= chain@.len(),
            chain@.len() == s.len(),
            chain_views(chain@) == chain_of(s),
            prev@ == if idx == 0 { genesis() } else { chain_hash_at(s, idx - 1) },
            mismatch_index is None,
            finding_views(errors@) == e1,
        ensures
            mismatch_index is None,
            finding_views(errors@) == e1,
        decreases chain@.len() - idx,
    {
        let item = &chain[idx];
        let expected_link = crate::canonical_core::hash::chain_hash_hex(
            prev.as_str(),
            item.record_hash.as_str(),
        );
        proof {
            assert(chain_views(chain@)[idx as int] == item@);
        }
        if expected_link != item.chain_hash {
            mismatch_index = Some(idx);
            errors.push(
                VerifyError {
                    code: VerifyCode::ChainContinuityBreak,
                    message: String::from_str("chain continuity broken"),
                    record_key: record_key_from(&item.key),
                },
            );
            break;
        }
        prev = item.chain_hash.clone();
        idx += 1;
    }
    let last = chain.len() - 1;
    let final_chain_hash = chain[last].chain_hash.clone();
    proof {
        assert(chain_views(chain@)[last as int] == chain@[last as int]@);
        assert(final_chain_hash@ == final_hash_of(s));
    }
    if mismatch_index.is_none() {
        if let Some(expected_hash) = expected_final_chain_hash {
            if String::from_str(expected_hash) != final_chain_hash {
                mismatch_index = Some(last);
                let finding = final_hash_error(
                    expected_hash,
                    final_chain_hash.as_str(),
                    record_key_from(&chain[last].key),
                );
                let ghost before = errors@;
                errors.push(finding);
                proof {
                    assert(finding_views(errors@) =~= finding_views(before).push(finding@));
                    assert(finding@ == final_hash_finding(expected_hash@, final_hash_of(s), key_of(s[last as int])));
                }
            }
        }
    }
    let status = status_of(&errors);
    let records_verified = if errors.len() == 0 {
        chain.len()
    } else {
        0
    };
    let report = VerifierReport {
        status,
        records_total,
        records_verified,
        final_chain_hash,
        expected_final_chain_hash: owned_opt(expected_final_chain_hash),
        mismatch_index,
        errors,
    };
    proof {
        let want = records_report(rv, expected, expected_records_total);
        assert(s[last as int] == s[s.len() - 1]);
        assert(chain_views(chain@)[last as int].key == key_of(s[last as int]));
        assert(report@.errors.len() == want.errors.len());
        assert(report@.errors =~= want.errors);
        assert(report@.expected_final_chain_hash == want.expected_final_chain_hash);
        assert(report@.status == want.status);
    }
    report
}

} // verus!

verus! {

// ---------------------------------------------------------------------------
// Canonical payload bytes
// ---------------------------------------------------------------------------

/// The value of four little-endian bytes.
pub open spec fn le_u32_value(b: Seq<u8>) -> nat {
    b[0] as nat + 256 * (b[1] as nat) + 65536 * (b[2] as nat) + 16777216 * (b[3] as nat)
}

/// One record in the payload: its canonical text's UTF-8 byte length as four
/// little-endian bytes (the length taken modulo 2^32), then those bytes.
pub open spec fn payload_entry(r: OfferView) -> Seq<u8> {
    let b = vstd::utf8::encode_utf8(canonical_text(r));
    crate::digest::le_bytes(b.len() % 4294967296, 4) + b
}

/// The payload of the records `s`, in order.
pub open spec fn payload_of(s: Seq<OfferView>) -> Seq<u8>
    decreases s.len(),
{
    if s.len() == 0 {
        Seq::empty()
    } else {
        payload_entry(s[0]) + payload_of(s.drop_first())
    }
}

/// Why payload bytes do not split into records.
pub enum PayloadFault {
    LengthExceeds,
    NotUtf8,
    Trailing,
}

/// The message of a payload fault.
pub open spec fn payload_fault_text(f: PayloadFault) -> Seq<char> {
    match f {
        PayloadFault::LengthExceeds => "declared record length exceeds payload size"@,
        PayloadFault::NotUtf8 => "record payload is not valid UTF-8"@,
        PayloadFault::Trailing => "trailing bytes after canonical payload records"@,
    }
}

/// The record byte strings of a length-prefixed payload, or the first fault met
/// reading it from the front.
pub open spec fn payload_segments(p: Seq<u8>) -> Result<Seq<Seq<u8>>, PayloadFault>
    decreases p.len(),
{
    if p.len() < 4 {
        if p.len() == 0 {
            Ok(Seq::empty())
        } else {
            Err(PayloadFault::Trailing)
        }
    } else {
        let n = le_u32_value(p.subrange(0, 4));
        if n > p.len() - 4 {
            Err(PayloadFault::LengthExceeds)
        } else {
            let seg = p.subrange(4, 4 + n as int);
            if !vstd::utf8::valid_utf8(seg) {
                Err(PayloadFault::NotUtf8)
            } else {
                match payload_segments(p.subrange(4 + n as int, p.len() as int)) {
                    Ok(rest) => Ok(seq![seg] + rest),
                    Err(e) => Err(e),
                }
            }
        }
    }
}

/// A truth package as plain values.
pub struct TruthView {
    pub payload: Seq<u8>,
    pub records: Seq<OfferView>,
    pub chain: Seq<ChainView>,
    pub final_chain_hash: Seq<char>,
    pub schema_version: Seq<char>,
    pub hash_spec_version: Seq<char>,
    pub records_total: usize,
}

impl View for CanonicalTruthPackage {
    type V = TruthView;

    open spec fn view(&self) -> TruthView {
        TruthView {
            payload: self.canonical_payload_bytes@,
            records: offer_views(self.records@),
            chain: chain_views(self.chain@),
            final_chain_hash: self.final_chain_hash@,
            schema_version: self.metadata.schema_version@,
            hash_spec_version: self.metadata.hash_spec_version@,
            records_total: self.metadata.records_total,
        }
    }
}

/// The chain hash that entry `i` of `c` must follow.
pub open spec fn prev_chain_hash(c: Seq<ChainView>, i: int) -> Seq<char> {
    if i == 0 {
        genesis()
    } else {
        c[i - 1].chain_hash
    }
}

/// Entry `i` of the chain hashes payload record `i` and links to its predecessor.
pub open spec fn entry_ok(segs: Seq<Seq<u8>>, c: Seq<ChainView>, i: int) -> bool {
    &&& sha256_hex_of(segs[i]) == c[i].record_hash
    &&& link_hash(prev_chain_hash(c, i), c[i].record_hash) == c[i].chain_hash
}

/// Every entry before `i` is sound.
pub open spec fn entries_ok_before(segs: Seq<Seq<u8>>, c: Seq<ChainView>, i: int) -> bool {
    forall|j: int| #![trigger entry_ok(segs, c, j)] 0 <= j < i ==> entry_ok(segs, c, j)
}

/// The finding for the first unsound entry `i`.
pub open spec fn entry_finding(segs: Seq<Seq<u8>>, c: Seq<ChainView>, i: int) -> FindingView {
    if sha256_hex_of(segs[i]) != c[i].record_hash {
        FindingView {
            code: VerifyCode::HashMismatch,
            message: "record_hash mismatch from canonical_payload_bytes"@,
            key: c[i].key,
        }
    } else {
        FindingView {
            code: VerifyCode::ChainContinuityBreak,
            message: "chain continuity broken"@,
            key: c[i].key,
        }
    }
}

/// The final chain hash recorded in the chain entries (`"0"` for none).
pub open spec fn computed_final(c: Seq<ChainView>) -> Seq<char> {
    if c.len() == 0 {
        genesis()
    } else {
        c.last().chain_hash
    }
}

/// `n - 1`, or 0 when `n` is 0.
pub open spec fn last_index(n: nat) -> usize {
    if n == 0 {
        0
    } else {
        (n - 1) as usize
    }
}

/// The report of verifying a truth package from its serialized payload bytes.
pub open spec fn truth_report(t: TruthView, expected_hash: Option<Seq<char>>) -> ReportView {
    match payload_segments(t.payload) {
        Err(f) => ReportView {
            status: "FAIL"@,
            records_total: t.records_total,
            records_verified: 0,
            final_chain_hash: t.final_chain_hash,
            expected_final_chain_hash: expected_hash,
            mismatch_index: None,
            errors: seq![
                FindingView {
                    code: VerifyCode::CsvMalformed,
                    message: "canonical payload parse error: "@ + payload_fault_text(f),
                    key: unknown_key_view(),
                },
            ],
        },
        Ok(segs) => {
            let c = t.chain;
            let m = segs.len();
            let e1 = if t.records_total != m || m != c.len() {
                seq![
                    FindingView {
                        code: VerifyCode::RecordCountMismatch,
                        message: "records_total="@ + decimal(t.records_total as nat)
                            + " serialized_records="@ + decimal(m) + " chain="@ + decimal(c.len()),
                        key: unknown_key_view(),
                    },
                ]
            } else {
                Seq::empty()
            };
            let k = if m < c.len() {
                m
            } else {
                c.len()
            };
            let fin = computed_final(c);
            let has_bad = exists|i: int|
                #![trigger entry_ok(segs, c, i)]
                0 <= i < k && !entry_ok(segs, c, i) && entries_ok_before(segs, c, i);
            let bad = choose|i: int|
                #![trigger entry_ok(segs, c, i)]
                0 <= i < k && !entry_ok(segs, c, i) && entries_ok_before(segs, c, i);
            let (mismatch, e2) = if has_bad {
                (Some(bad as usize), seq![entry_finding(segs, c, bad)])
            } else if fin != t.final_chain_hash {
                (
                    Some(last_index(c.len())),
                    seq![
                        FindingView {
                            code: VerifyCode::HashMismatch,
                            message: "truth package final_chain_hash="@ + t.final_chain_hash
                                + " computed="@ + fin,
                            key: if t.records.len() == 0 {
                                unknown_key_view()
                            } else {
                                key_of(t.records.last())
                            },
                        },
                    ],
                )
            } else {
                match expected_hash {
                    Some(h) => if h != fin {
                        (
                            Some(last_index(c.len())),
                            seq![
                                final_hash_finding(
                                    h,
                                    fin,
                                    if c.len() == 0 {
                                        unknown_key_view()
                                    } else {
                                        c.last().key
                                    },
                                ),
                            ],
                        )
                    } else {
                        (None, Seq::empty())
                    },
                    None => (None, Seq::empty()),
                }
            };
            let errors = e1 + e2;
            ReportView {
                status: status_text(errors),
                records_total: t.records_total,
                records_verified: if errors.len() == 0 {
                    m as usize
                } else {
                    0
                },
                final_chain_hash: fin,
                expected_final_chain_hash: expected_hash,
                mismatch_index: mismatch,
                errors,
            }
        },
    }
}

} // verus!

verus! {

/// The record byte strings of a payload that splits cleanly (empty otherwise).
pub open spec fn segments_of(p: Seq<u8>) -> Seq<Seq<u8>> {
    match payload_segments(p) {
        Ok(s) => s,
        Err(_) => Seq::empty(),
    }
}

/// The texts of a sequence of strings.
pub open spec fn string_views(v: Seq<String>) -> Seq<Seq<char>> {
    v.map_values(|s: String| s@)
}

/// The texts that UTF-8 byte strings decode to.
pub open spec fn decoded_segments(segs: Seq<Seq<u8>>) -> Seq<Seq<char>> {
    segs.map_values(|b: Seq<u8>| vstd::utf8::decode_utf8(b))
}

/// `pre` followed by the outcome `r` of reading the rest.
pub open spec fn prepend_segments(
    pre: Seq<Seq<u8>>,
    r: Result<Seq<Seq<u8>>, PayloadFault>,
) -> Result<Seq<Seq<u8>>, PayloadFault> {
    match r {
        Ok(rest) => Ok(pre + rest),
        Err(e) => Err(e),
    }
}

/// Every record byte string of a cleanly split payload is valid UTF-8.
pub proof fn lemma_segments_valid(p: Seq<u8>)
    requires
        payload_segments(p) is Ok,
    ensures
        forall|i: int|
            0 <= i < segments_of(p).len() ==> vstd::utf8::valid_utf8(#[trigger] segments_of(p)[i]),
    decreases p.len(),
{
    if p.len() >= 4 {
        let n = le_u32_value(p.subrange(0, 4));
        let rest = p.subrange(4 + n as int, p.len() as int);
        lemma_segments_valid(rest);
        assert forall|i: int| 0 <= i < segments_of(p).len() implies vstd::utf8::valid_utf8(
            #[trigger] segments_of(p)[i],
        ) by {
            if i > 0 {
                assert(segments_of(p)[i] == segments_of(rest)[i - 1]);
            }
        }
    }
}

fn copy_range(data: &[u8], start: usize, end: usize) -> (res: Vec<u8>)
    requires
        start <= end <= data@.len(),
    ensures
        res@ == data@.subrange(start as int, end as int),
{
    let mut out: Vec<u8> = Vec::new();
    let mut i = start;
    while i < end
        invariant
            start <= i <= end,
            end <= data@.len(),
            out@ == data@.subrange(start as int, i as int),
        decreases end - i,
    {
        out.push(data[i]);
        i += 1;
        proof {
            assert(data@.subrange(start as int, i as int) =~= data@.subrange(start as int, i - 1).push(
                data@[i - 1],
            ));
        }
    }
    out
}

/// Splits length-prefixed canonical payload bytes into record texts.
fn parse_canonical_payload_bytes(payload: &[u8]) -> (res: Result<Vec<String>, String>)
    ensures
        match res {
            Ok(v) => payload_segments(payload@) is Ok && string_views(v@) == decoded_segments(segments_of(payload@)),
            Err(m) => match payload_segments(payload@) {
                Err(f) => m@ == payload_fault_text(f),
                Ok(_) => false,
            },
        },
{
    let ghost p = payload@;
    let mut out: Vec<String> = Vec::new();
    let ghost mut done: Seq<Seq<u8>> = Seq::empty();
    let mut i: usize = 0;
    proof {
        assert(p.subrange(0, p.len() as int) =~= p);
        assert(prepend_segments(done, payload_segments(p)) =~= payload_segments(p)) by {
            match payload_segments(p) {
                Ok(r) => {
                    assert(done + r =~= r);
                },
                Err(_) => {},
            }
        }
    }
    while payload.len() - i >= 4
        invariant
            i <= p.len(),
            p == payload@,
            payload_segments(p) == prepend_segments(done, payload_segments(p.subrange(i as int, p.len() as int))),
            string_views(out@) == decoded_segments(done),
        decreases p.len() - i,
    {
        let ghost q = p.subrange(i as int, p.len() as int);
        let n: u64 = payload[i] as u64 + 256 * (payload[i + 1] as u64) + 65536 * (payload[i + 2] as u64)
            + 16777216 * (payload[i + 3] as u64);
        proof {
            assert(q.subrange(0, 4) =~= p.subrange(i as int, i + 4));
            assert(n == le_u32_value(q.subrange(0, 4)));
        }
        i += 4;
        let len = n as usize;
        if len > payload.len() - i {
            return Err(String::from_str("declared record length exceeds payload size"));
        }
        let bytes = copy_range(payload, i, i + len);
        proof {
            assert(bytes@ =~= q.subrange(4, 4 + n as int));
            assert(q.subrange(4 + n as int, q.len() as int) =~= p.subrange(i + len, p.len() as int));
        }
        i += len;
        match crate::text::string_from_utf8(bytes) {
            Some(s) => {
                let ghost seg = q.subrange(4, 4 + n as int);
                let ghost prev_out = out@;
                let ghost old_done = done;
                out.push(s);
                proof {
                    assert(string_views(prev_out) == decoded_segments(old_done));
                    let tail = payload_segments(p.subrange(i as int, p.len() as int));
                    assert(prepend_segments(done, payload_segments(q)) == prepend_segments(
                        done.push(seg),
                        tail,
                    )) by {
                        match tail {
                            Ok(r) => {
                                assert(done + (seq![seg] + r) =~= done.push(seg) + r);
                            },
                            Err(_) => {},
                        }
                    }
                    done = done.push(seg);
                    assert(string_views(out@) =~= decoded_segments(done)) by {
                        assert(out@ == prev_out.push(s));
                        assert(s@ == vstd::utf8::decode_utf8(seg));
                        assert(done == old_done.push(seg));
                        assert(string_views(prev_out).len() == prev_out.len());
                        assert(decoded_segments(old_done).len() == old_done.len());
                        assert(prev_out.len() == old_done.len());
                        assert forall|k: int| 0 <= k < out@.len() implies #[trigger] string_views(out@)[k]
                            == decoded_segments(done)[k] by {
                            if k < prev_out.len() {
                                assert(string_views(prev_out)[k] == decoded_segments(old_done)[k]);
                                assert(out@[k] == prev_out[k]);
                                assert(done[k] == old_done[k]);
                            } else {
                                assert(out@[k] == s);
                                assert(done[k] == seg);
                            }
                        }
                    }
                }
            },
            None => {
                return Err(String::from_str("record payload is not valid UTF-8"));
            },
        }
    }
    if i != payload.len() {
        return Err(String::from_str("trailing bytes after canonical payload records"));
    }
    proof {
        let q = p.subrange(i as int, p.len() as int);
        assert(q.len() == 0);
        assert(payload_segments(q) == Ok::<Seq<Seq<u8>>, PayloadFault>(Seq::<Seq<u8>>::empty()));
        assert(done + Seq::<Seq<u8>>::empty() =~= done);
    }
    Ok(out)
}

/// The payload of `a` followed by `x` is the payload of `a` followed by `x`'s entry.
pub proof fn lemma_payload_push(a: Seq<OfferView>, x: OfferView)
    ensures
        payload_of(a.push(x)) == payload_of(a) + payload_entry(x),
    decreases a.len(),
{
    if a.len() == 0 {
        assert(a.push(x).drop_first() =~= Seq::<OfferView>::empty());
        assert(a.push(x)[0] == x);
        assert(payload_of(Seq::<OfferView>::empty()) == Seq::<u8>::empty());
        assert(payload_entry(x) + Seq::<u8>::empty() =~= payload_entry(x));
        assert(Seq::<u8>::empty() + payload_entry(x) =~= payload_entry(x));
    } else {
        assert(a.push(x)[0] == a[0]);
        assert(a.push(x).drop_first() =~= a.drop_first().push(x));
        lemma_payload_push(a.drop_first(), x);
        assert(payload_entry(a[0]) + (payload_of(a.drop_first()) + payload_entry(x)) =~= (
        payload_entry(a[0]) + payload_of(a.drop_first())) + payload_entry(x));
    }
}

/// The length-prefixed canonical payload of `records`, in order.
fn build_canonical_payload_bytes(records: &Vec<ScedResourceOfferRecord>) -> (res: Vec<u8>)
    ensures
        res@ == payload_of(offer_views(records@)),
{
    let ghost s = offer_views(records@);
    let mut out: Vec<u8> = Vec::new();
    let mut i: usize = 0;
    proof {
        assert(s.take(0) =~= Seq::<OfferView>::empty());
    }
    while i < records.len()
        invariant
            i <= records@.len(),
            s == offer_views(records@),
            out@ == payload_of(s.take(i as int)),
        decreases records@.len() - i,
    {
        let text = crate::canonical_core::serialize::canonical_record_string_utf8(&records[i]);
        let bytes = text.as_str().as_bytes();
        let len = bytes.len();
        crate::digest::push_le_bytes(&mut out, ((len as u64) % 4294967296u64) as u128, 4);
        crate::digest::push_all(&mut out, bytes);
        proof {
            assert(s[i as int] == records@[i as int]@);
            assert(s.take(i + 1) =~= s.take(i as int).push(s[i as int]));
            lemma_payload_push(s.take(i as int), s[i as int]);
            assert(out@ =~= payload_of(s.take(i as int)) + payload_entry(s[i as int]));
        }
        i += 1;
    }
    proof {
        assert(s.take(i as int) =~= s);
    }
    out
}

} // verus!

verus! {

proof fn lemma_first_bad_unique(segs: Seq<Seq<u8>>, c: Seq<ChainView>, i: int, j: int)
    requires
        !entry_ok(segs, c, i),
        entries_ok_before(segs, c, i),
        !entry_ok(segs, c, j),
        entries_ok_before(segs, c, j),
        0 <= i,
        0 <= j,
    ensures
        i == j,
{
    if i < j {
        assert(entry_ok(segs, c, i));
    } else if j < i {
        assert(entry_ok(segs, c, j));
    }
}

fn chain_count_error(records_total: usize, serialized: usize, chain: usize) -> (e: VerifyError)
    ensures
        e@ == (FindingView {
            code: VerifyCode::RecordCountMismatch,
            message: "records_total="@ + decimal(records_total as nat) + " serialized_records="@
                + decimal(serialized as nat) + " chain="@ + decimal(chain as nat),
            key: unknown_key_view(),
        }),
{
    let mut m = String::from_str("records_total=");
    push_decimal(&mut m, records_total as u128);
    push_str(&mut m, " serialized_records=");
    push_decimal(&mut m, serialized as u128);
    push_str(&mut m, " chain=");
    push_decimal(&mut m, chain as u128);
    proof {
        assert(m@ =~= "records_total="@ + decimal(records_total as nat) + " serialized_records="@
            + decimal(serialized as nat) + " chain="@ + decimal(chain as nat));
    }
    VerifyError { code: VerifyCode::RecordCountMismatch, message: m, record_key: unknown_key() }
}

/// Verifies a truth package from its serialized payload bytes (not from its record
/// structs): every record hash is recomputed from the payload and every chain link
/// from its predecessor, then the final hash is bound to the package and, optionally,
/// to `expected_final_chain_hash`.
pub fn verify_truth_package(
    truth: &CanonicalTruthPackage,
    expected_final_chain_hash: Option<&str>,
) -> (report: VerifierReport)
    ensures
        report@ == truth_report(truth@, opt_text(expected_final_chain_hash)),
{
    let ghost t = truth@;
    let ghost expected = opt_text(expected_final_chain_hash);
    let payload_records = match parse_canonical_payload_bytes(truth.canonical_payload_bytes.as_slice()) {
        Ok(v) => v,
        Err(msg) => {
            let mut m = String::from_str("canonical payload parse error: ");
            push_str(&mut m, msg.as_str());
            let mut errors: Vec<VerifyError> = Vec::new();
            errors.push(VerifyError { code: VerifyCode::CsvMalformed, message: m, record_key: unknown_key() });
            let report = VerifierReport {
                status: String::from_str("FAIL"),
                records_total: truth.metadata.records_total,
                records_verified: 0,
                final_chain_hash: truth.final_chain_hash.clone(),
                expected_final_chain_hash: owned_opt(expected_final_chain_hash),
                mismatch_index: None,
                errors,
            };
            proof {
                let want = truth_report(t, expected);
                assert(report@.errors =~= want.errors);
                assert(report@.expected_final_chain_hash == want.expected_final_chain_hash);
            }
            return report;
        },
    };
    let ghost segs = segments_of(t.payload);
    let ghost c = t.chain;
    proof {
        lemma_segments_valid(t.payload);
        assert(string_views(payload_records@).len() == payload_records@.len());
        assert(c.len() == truth.chain@.len());
    }
    let mut errors: Vec<VerifyError> = Vec::new();
    let mut mismatch_index: Option<usize> = None;
    let n_payload = payload_records.len();
    let n_chain = truth.chain.len();
    if truth.metadata.records_total != n_payload || n_payload != n_chain {
        errors.push(chain_count_error(truth.metadata.records_total, n_payload, n_chain));
    }
    let ghost e1 = finding_views(errors@);
    let k = if n_payload < n_chain {
        n_payload
    } else {
        n_chain
    };
    let mut prev = crate::canonical_core::canonicalize::genesis_hash();
    let mut idx: usize = 0;
    loop
        invariant_except_break
            mismatch_index is None,
            finding_views(errors@) == e1,
        invariant
            idx <= k,
            k <= segs.len(),
            k <= c.len(),
            segs.len() == payload_records@.len(),
            c.len() == truth.chain@.len(),
            c == chain_views(truth.chain@),
            string_views(payload_records@) == decoded_segments(segs),
            forall|i: int| 0 <= i < segs.len() ==> vstd::utf8::valid_utf8(#[trigger] segs[i]),
            entries_ok_before(segs, c, idx as int),
            prev@ == prev_chain_hash(c, idx as int),
        ensures
            (mismatch_index is None && idx == k && entries_ok_before(segs, c, k as int)
                && finding_views(errors@) == e1) || (mismatch_index == Some(idx) && idx < k
                && !entry_ok(segs, c, idx as int) && entries_ok_before(segs, c, idx as int)
                && finding_views(errors@) == e1.push(entry_finding(segs, c, idx as int))),
        decreases k - idx,
    {
        if idx >= k {
            break;
        }
        let item = &truth.chain[idx];
        proof {
            assert(c[idx as int] == item@);
            assert(string_views(payload_records@)[idx as int] == payload_records@[idx as int]@);
            vstd::utf8::decode_utf8_encode_utf8(segs[idx as int]);
        }
        let expected_record_hash = sha256_hex_str(payload_records[idx].as_str());
        if expected_record_hash != item.record_hash {
            mismatch_index = Some(idx);
            let ghost before = errors@;
            let finding = VerifyError {
                code: VerifyCode::HashMismatch,
                message: String::from_str("record_hash mismatch from canonical_payload_bytes"),
                record_key: record_key_from(&item.key),
            };
            errors.push(finding);
            proof {
                assert(finding_views(errors@) =~= finding_views(before).push(finding@));
            }
            break;
        }
        let expected_chain_hash = crate::canonical_core::hash::chain_hash_hex(
            prev.as_str(),
            item.record_hash.as_str(),
        );
        if expected_chain_hash != item.chain_hash {
            mismatch_index = Some(idx);
            let ghost before = errors@;
            let finding = VerifyError {
                code: VerifyCode::ChainContinuityBreak,
                message: String::from_str("chain continuity broken"),
                record_key: record_key_from(&item.key),
            };
            errors.push(finding);
            proof {
                assert(finding_views(errors@) =~= finding_views(before).push(finding@));
            }
            break;
        }
        proof {
            assert(entry_ok(segs, c, idx as int));
            assert forall|j: int| 0 <= j < idx + 1 implies #[trigger] entry_ok(segs, c, j) by {
                if j < idx {
                    assert(entry_ok(segs, c, j));
                }
            }
        }
        prev = item.chain_hash.clone();
        idx += 1;
    }
    let computed_final_chain_hash = if n_chain == 0 {
        crate::canonical_core::canonicalize::genesis_hash()
    } else {
        truth.chain[n_chain - 1].chain_hash.clone()
    };
    proof {
        if n_chain > 0 {
            assert(c[n_chain - 1] == truth.chain@[n_chain - 1]@);
        }
        assert(computed_final_chain_hash@ == computed_final(c));
    }
    let last = if n_chain == 0 {
        0
    } else {
        n_chain - 1
    };
    if mismatch_index.is_none() && computed_final_chain_hash != truth.final_chain_hash {
        mismatch_index = Some(last);
        let mut m = String::from_str("truth package final_chain_hash=");
        push_str(&mut m, truth.final_chain_hash.as_str());
        push_str(&mut m, " computed=");
        push_str(&mut m, computed_final_chain_hash.as_str());
        let n_records = truth.records.len();
        let key = if n_records == 0 {
            unknown_key()
        } else {
            let r = &truth.records[n_records - 1];
            RecordKey {
                scd_timestamp: r.scd_timestamp.clone(),
                repeat_hour_flag: r.repeat_hour_flag,
                resource_name: r.resource_name.clone(),
                offer_type: r.offer_type.clone(),
            }
        };
        proof {
            assert(m@ =~= "truth package final_chain_hash="@ + t.final_chain_hash + " computed="@
                + computed_final(c));
            if n_records > 0 {
                assert(t.records.last() == truth.records@[n_records - 1]@);
            }
        }
        let ghost before = errors@;
        let finding = VerifyError { code: VerifyCode::HashMismatch, message: m, record_key: key };
        errors.push(finding);
        proof {
            assert(finding_views(errors@) =~= finding_views(before).push(finding@));
        }
    }
    if mismatch_index.is_none() {
        if let Some(expected_hash) = expected_final_chain_hash {
            if String::from_str(expected_hash) != computed_final_chain_hash {
                mismatch_index = Some(last);
                let key = if n_chain == 0 {
                    unknown_key()
                } else {
                    record_key_from(&truth.chain[n_chain - 1].key)
                };
                proof {
                    if n_chain > 0 {
                        assert(c.last() == truth.chain@[n_chain - 1]@);
                    }
                }
                let finding = final_hash_error(expected_hash, computed_final_chain_hash.as_str(), key);
                let ghost before = errors@;
                errors.push(finding);
                proof {
                    assert(finding_views(errors@) =~= finding_views(before).push(finding@));
                }
            }
        }
    }
    let status = status_of(&errors);
    let records_verified = if errors.len() == 0 {
        n_payload
    } else {
        0
    };
    let report = VerifierReport {
        status,
        records_total: truth.metadata.records_total,
        records_verified,
        final_chain_hash: computed_final_chain_hash,
        expected_final_chain_hash: owned_opt(expected_final_chain_hash),
        mismatch_index,
        errors,
    };
    proof {
        let want = truth_report(t, expected);
        let kk = if segs.len() < c.len() { segs.len() } else { c.len() };
        assert(kk == k);
        let has_bad = exists|i: int|
            #![trigger entry_ok(segs, c, i)]
            0 <= i < kk && !entry_ok(segs, c, i) && entries_ok_before(segs, c, i);
        match report.mismatch_index {
            Some(i) => {},
            None => {},
        }
        if idx < k && !entry_ok(segs, c, idx as int) && entries_ok_before(segs, c, idx as int) && report.mismatch_index == Some(idx) {
            assert(has_bad);
            let bad = choose|i: int|
                #![trigger entry_ok(segs, c, i)]
                0 <= i < kk && !entry_ok(segs, c, i) && entries_ok_before(segs, c, i);
            lemma_first_bad_unique(segs, c, idx as int, bad);
        } else {
            assert(!has_bad) by {
                if has_bad {
                    let bad = choose|i: int|
                        #![trigger entry_ok(segs, c, i)]
                        0 <= i < kk && !entry_ok(segs, c, i) && entries_ok_before(segs, c, i);
                    assert(entry_ok(segs, c, bad));
                }
            }
        }
        assert(report@.errors =~= want.errors);
        assert(report@.expected_final_chain_hash == want.expected_final_chain_hash);
        assert(report@.mismatch_index == want.mismatch_index);
    }
    report
}

} // verus!

verus! {

// ---------------------------------------------------------------------------
// Canonical truth packages
// ---------------------------------------------------------------------------

/// The truth package of parsed records `recs`: their key-sorted order, its payload,
/// its chain and final hash, and the versions and record count.
pub open spec fn truth_of(recs: Seq<OfferView>) -> TruthView {
    let s = sort_by_key(recs);
    TruthView {
        payload: payload_of(s),
        records: s,
        chain: chain_of(s),
        final_chain_hash: final_hash_of(s),
        schema_version: SCED_SCHEMA_VERSION@,
        hash_spec_version: SCED_HASH_SPEC_VERSION@,
        records_total: s.len() as usize,
    }
}

/// `res` is what building a truth package from CSV bytes `input` yields: the
/// package of the parsed records when their keys are distinct, the parse error, or
/// the first duplicated key in sorted order.
pub open spec fn truth_outcome<F: Fn(&str) -> Option<String>>(
    f: F,
    input: Seq<u8>,
    res: Result<TruthView, ParseErrorView>,
) -> bool {
    match res {
        Ok(t) => exists|recs: Seq<OfferView>|
            #[trigger] crate::canonical_core::canonicalize::csv_outcome(f, input, Ok(recs))
                && no_dup_before(sort_by_key(recs), recs.len() as int) && t == truth_of(recs),
        Err(e) => crate::canonical_core::canonicalize::csv_outcome(f, input, Err(e)) || exists|
            recs: Seq<OfferView>,
        |
            #[trigger] crate::canonical_core::canonicalize::csv_outcome(f, input, Ok(recs))
                && chain_outcome(recs, Err(e)),
    }
}

/// Parses SCED offer CSV bytes, sorts the records by primary key, and builds their
/// canonical payload bytes, hash chain and final chain hash.
pub fn compute_canonical_truth<F: Fn(&str) -> Option<String>>(input: &[u8], normalize_numeric: F) -> (res: Result<CanonicalTruthPackage, ParseError>)
    requires
        forall|s: &str| call_requires(normalize_numeric, (s,)),
    ensures
        truth_outcome(
            normalize_numeric,
            input@,
            match res {
                Ok(t) => Ok(t@),
                Err(e) => Err(e@),
            },
        ),
        res is Ok ==> crate::canonical_core::sort::key_strictly_sorted(res->Ok_0@.records),
{
    let mut records = match crate::canonical_core::canonicalize::parse_csv(input, normalize_numeric) {
        Ok(r) => r,
        Err(e) => return Err(e),
    };
    let ghost recs = offer_views(records@);
    crate::canonical_core::sort::sort_records(&mut records);
    let ghost s = offer_views(records@);
    let canonical_payload_bytes = build_canonical_payload_bytes(&records);
    let chain = match crate::canonical_core::canonicalize::chain_sorted_records(&records) {
        Ok(c) => c,
        Err(e) => {
            proof {
                assert(chain_outcome(recs, Err(e@)));
            }
            return Err(e);
        },
    };
    let final_chain_hash = if chain.len() == 0 {
        crate::canonical_core::canonicalize::genesis_hash()
    } else {
        proof {
            assert(chain_views(chain@)[chain@.len() - 1] == chain@[chain@.len() - 1]@);
        }
        chain[chain.len() - 1].chain_hash.clone()
    };
    let records_total = records.len();
    let package = CanonicalTruthPackage {
        canonical_payload_bytes,
        records,
        chain,
        final_chain_hash,
        metadata: CanonicalTruthMetadata {
            schema_version: String::from_str(SCED_SCHEMA_VERSION),
            hash_spec_version: String::from_str(SCED_HASH_SPEC_VERSION),
            records_total,
        },
    };
    proof {
        lemma_sort_len(recs);
        assert(s.len() == records_total);
        let t = truth_of(recs);
        assert(package@.payload == t.payload);
        assert(package@.records == t.records);
        assert(package@.chain == t.chain);
        assert(package@.final_chain_hash == t.final_chain_hash);
        assert(package@.schema_version == t.schema_version);
        assert(package@.hash_spec_version == t.hash_spec_version);
        assert(package@.records_total == t.records_total);
        assert(package@ == truth_of(recs));
        crate::canonical_core::sort::lemma_sort_is_ordered_permutation(recs);
        crate::canonical_core::sort::lemma_sorted_without_neighbour_dups_is_strict(s);
    }
    Ok(package)
}

} // verus!

verus! {

/// The UTF-8 bytes of the canonical texts of `s`, in order.
pub open spec fn encoded_texts(s: Seq<OfferView>) -> Seq<Seq<u8>> {
    Seq::new(s.len(), |i: int| vstd::utf8::encode_utf8(canonical_text(s[i])))
}

/// Every canonical text of `s` has fewer than 2^32 UTF-8 bytes.
pub open spec fn texts_fit_u32(s: Seq<OfferView>) -> bool {
    forall|i: int|
        0 <= i < s.len() ==> #[trigger] vstd::utf8::encode_utf8(canonical_text(s[i])).len()
            < 4294967296
}

/// Four little-endian bytes read back give the number they were made from.
proof fn lemma_le_u32_roundtrip(n: nat)
    requires
        n < 4294967296,
    ensures
        crate::digest::le_bytes(n, 4).len() == 4,
        le_u32_value(crate::digest::le_bytes(n, 4)) == n,
{
    let q1 = n / 256;
    let q2 = q1 / 256;
    let q3 = q2 / 256;
    assert(n == 256 * q1 + n % 256);
    assert(q1 == 256 * q2 + q1 % 256);
    assert(q2 == 256 * q3 + q2 % 256);
    assert(q3 < 256);
    assert(q3 / 256 == 0);
    assert(q3 % 256 == q3);
    let b = crate::digest::le_bytes(n, 4);
    assert(crate::digest::le_bytes(q3 / 256, 0) =~= Seq::<u8>::empty());
    assert(crate::digest::le_bytes(q3, 1) =~= seq![(q3 % 256) as u8]);
    assert(crate::digest::le_bytes(q2, 2) =~= seq![(q2 % 256) as u8, (q3 % 256) as u8]);
    assert(crate::digest::le_bytes(q1, 3) =~= seq![(q1 % 256) as u8, (q2 % 256) as u8, (q3 % 256) as u8]);
    assert(b =~= seq![(n % 256) as u8, (q1 % 256) as u8, (q2 % 256) as u8, (q3 % 256) as u8]);
    assert(b.subrange(0, 4) =~= b);
}

/// The payload of records whose canonical texts fit a 32-bit length splits back
/// into exactly their UTF-8 encodings.
pub proof fn lemma_payload_segments(s: Seq<OfferView>)
    requires
        texts_fit_u32(s),
    ensures
        payload_segments(payload_of(s)) == Ok::<Seq<Seq<u8>>, PayloadFault>(encoded_texts(s)),
    decreases s.len(),
{
    if s.len() == 0 {
        assert(encoded_texts(s) =~= Seq::<Seq<u8>>::empty());
    } else {
        let rest = s.drop_first();
        assert forall|i: int| 0 <= i < rest.len() implies #[trigger] vstd::utf8::encode_utf8(
            canonical_text(rest[i]),
        ).len() < 4294967296 by {
            assert(rest[i] == s[i + 1]);
            assert(vstd::utf8::encode_utf8(canonical_text(s[i + 1])).len() < 4294967296);
        }
        lemma_payload_segments(rest);
        let b = vstd::utf8::encode_utf8(canonical_text(s[0]));
        assert(b.len() < 4294967296);
        let n = b.len();
        lemma_le_u32_roundtrip(n);
        let head = crate::digest::le_bytes(n % 4294967296, 4);
        assert(n % 4294967296 == n);
        let p = payload_of(s);
        assert(p == payload_entry(s[0]) + payload_of(rest));
        assert(payload_entry(s[0]) == head + b);
        assert(p.subrange(0, 4) =~= head);
        assert(le_u32_value(p.subrange(0, 4)) == n);
        assert(p.subrange(4, 4 + n as int) =~= b);
        assert(p.subrange(4 + n as int, p.len() as int) =~= payload_of(rest));
        vstd::utf8::encode_utf8_valid_utf8(canonical_text(s[0]));
        assert(encoded_texts(s) =~= seq![b] + encoded_texts(rest));
    }
}

/// Verifying the package built from records `recs` passes: with no expected final
/// hash, or with an expected hash equal to the package's, the report is `PASS`
/// with no findings, every record verified, and the package's final chain hash.
pub proof fn lemma_truth_package_verifies(recs: Seq<OfferView>, expected: Option<Seq<char>>)
    requires
        texts_fit_u32(sort_by_key(recs)),
        recs.len() <= usize::MAX,
        expected is None || expected == Some(final_hash_of(sort_by_key(recs))),
    ensures
        ({
            let r = truth_report(truth_of(recs), expected);
            &&& r.status == "PASS"@
            &&& r.errors.len() == 0
            &&& r.records_verified == recs.len()
            &&& r.final_chain_hash == final_hash_of(sort_by_key(recs))
            &&& r.mismatch_index is None
        }),
{
    let t = truth_of(recs);
    let s = sort_by_key(recs);
    lemma_sort_len(recs);
    lemma_payload_segments(s);
    let segs = encoded_texts(s);
    let c = chain_of(s);
    assert(t.records_total == segs.len());
    assert forall|i: int| 0 <= i < c.len() implies #[trigger] entry_ok(segs, c, i) by {
        if i > 0 {
            assert(prev_chain_hash(c, i) == chain_hash_at(s, i - 1));
        }
    }
    let k = if segs.len() < c.len() { segs.len() } else { c.len() };
    let has_bad = exists|i: int|
        #![trigger entry_ok(segs, c, i)]
        0 <= i < k && !entry_ok(segs, c, i) && entries_ok_before(segs, c, i);
    assert(!has_bad);
    assert(computed_final(c) == final_hash_of(s));
    reveal_strlit("PASS");
}

} // verus!

verus! {

impl ScedResourceOfferRecord {
    /// The primary key: timestamp, repeat-hour flag, resource name, offer type.
    pub fn primary_key(&self) -> (res: (&str, bool, &str, &str))
        ensures
            (res.0@, res.1, res.2@, res.3@) == key_of(self@),
    {
        (
            self.scd_timestamp.as_str(),
            self.repeat_hour_flag,
            self.resource_name.as_str(),
            self.offer_type.as_str(),
        )
    }

    /// The canonical `|`-joined text of the record.
    pub fn canonical_record_string(&self) -> (res: String)
        ensures
            res@ == canonical_text(self@),
    {
        crate::canonical_core::serialize::canonical_record_string_utf8(self)
    }

    /// Lowercase hex SHA-256 of the canonical text.
    pub fn record_hash(&self) -> (res: String)
        ensures
            res@ == record_hash_of(self@),
            res@.len() == 64,
    {
        crate::canonical_core::hash::record_hash_hex(self)
    }
}

} // verus!

verus! {

/// The one-line description of a parse error.
pub open spec fn parse_error_text(e: ParseErrorView) -> Seq<char> {
    match e {
        ParseErrorView::CsvSchemaMismatch => "CSV schema mismatch"@,
        ParseErrorView::MissingValue(f) => "missing value for field '"@ + f + "'"@,
        ParseErrorView::InvalidBoolean(v) => "invalid boolean '"@ + v + "'"@,
        ParseErrorView::InvalidNumeric(f, v) => "invalid numeric field '"@ + f + "' with value '"@ + v
            + "'"@,
        ParseErrorView::DuplicatePrimaryKey(k) => "duplicate primary key detected ("@ + k.0 + ","@
            + bool_text(k.1) + ","@ + k.2 + ","@ + k.3 + ")"@,
        ParseErrorView::MalformedCsv(m) => m,
    }
}

fn push_bool(s: &mut String, b: bool)
    ensures
        final(s)@ == old(s)@ + bool_text(b),
{
    if b {
        push_str(s, "true");
    } else {
        push_str(s, "false");
    }
    proof {
        reveal_strlit("true");
        reveal_strlit("false");
    }
}

/// Describes a parse error for an operator.
pub fn parse_error_message(err: &ParseError) -> (res: String)
    ensures
        res@ == parse_error_text(err@),
{
    match err {
        ParseError::CsvSchemaMismatch => String::from_str("CSV schema mismatch"),
        ParseError::MissingValue(field) => {
            let mut s = String::from_str("missing value for field '");
            push_str(&mut s, field.as_str());
            push_str(&mut s, "'");
            s
        },
        ParseError::InvalidBoolean(v) => {
            let mut s = String::from_str("invalid boolean '");
            push_str(&mut s, v.as_str());
            push_str(&mut s, "'");
            s
        },
        ParseError::InvalidNumeric(field, v) => {
            let mut s = String::from_str("invalid numeric field '");
            push_str(&mut s, field.as_str());
            push_str(&mut s, "' with value '");
            push_str(&mut s, v.as_str());
            push_str(&mut s, "'");
            s
        },
        ParseError::DuplicatePrimaryKey(ts, rep, res, typ) => {
            let mut s = String::from_str("duplicate primary key detected (");
            push_str(&mut s, ts.as_str());
            push_str(&mut s, ",");
            push_bool(&mut s, *rep);
            push_str(&mut s, ",");
            push_str(&mut s, res.as_str());
            push_str(&mut s, ",");
            push_str(&mut s, typ.as_str());
            push_str(&mut s, ")");
            s
        },
        ParseError::MalformedCsv(msg) => msg.clone(),
    }
}

/// The wire name of a verifier code.
pub open spec fn code_text(c: VerifyCode) -> Seq<char> {
    match c {
        VerifyCode::DuplicatePk => "DUPLICATE_PK"@,
        VerifyCode::InvalidNumeric => "INVALID_NUMERIC"@,
        VerifyCode::InvalidBoolean => "INVALID_BOOLEAN"@,
        VerifyCode::HashMismatch => "HASH_MISMATCH"@,
        VerifyCode::CsvSchemaMismatch => "CSV_SCHEMA_MISMATCH"@,
        VerifyCode::RecordCountMismatch => "RECORD_COUNT_MISMATCH"@,
        VerifyCode::ChainContinuityBreak => "CHAIN_CONTINUITY_BREAK"@,
        VerifyCode::CsvMalformed => "CSV_MALFORMED"@,
    }
}

impl VerifyCode {
    /// The code's wire name, such as `HASH_MISMATCH`.
    pub fn as_code_str(&self) -> (res: &'static str)
        ensures
            res@ == code_text(*self),
    {
        match self {
            VerifyCode::DuplicatePk => "DUPLICATE_PK",
            VerifyCode::InvalidNumeric => "INVALID_NUMERIC",
            VerifyCode::InvalidBoolean => "INVALID_BOOLEAN",
            VerifyCode::HashMismatch => "HASH_MISMATCH",
            VerifyCode::CsvSchemaMismatch => "CSV_SCHEMA_MISMATCH",
            VerifyCode::RecordCountMismatch => "RECORD_COUNT_MISMATCH",
            VerifyCode::ChainContinuityBreak => "CHAIN_CONTINUITY_BREAK",
            VerifyCode::CsvMalformed => "CSV_MALFORMED",
        }
    }
}

/// `(timestamp,flag,resource,offer)` for a record key.
pub fn format_record_key(key: &RecordKey) -> (res: String)
    ensures
        res@ == "("@ + key.scd_timestamp@ + ","@ + bool_text(key.repeat_hour_flag) + ","@
            + key.resource_name@ + ","@ + key.offer_type@ + ")"@,
{
    let mut s = String::from_str("(");
    push_str(&mut s, key.scd_timestamp.as_str());
    push_str(&mut s, ",");
    push_bool(&mut s, key.repeat_hour_flag);
    push_str(&mut s, ",");
    push_str(&mut s, key.resource_name.as_str());
    push_str(&mut s, ",");
    push_str(&mut s, key.offer_type.as_str());
    push_str(&mut s, ")");
    s
}

} // verus!

verus! {

/// Verification reads the serialized payload, the chain and the recorded final
/// hash, not the record structs: replacing a package's records changes nothing in
/// its report as long as the recorded final hash matches the chain's.
pub proof fn lemma_report_ignores_records(t: TruthView, records: Seq<OfferView>, expected: Option<Seq<char>>)
    requires
        computed_final(t.chain) == t.final_chain_hash,
    ensures
        truth_report(TruthView { records, ..t }, expected) == truth_report(t, expected),
{
}

} // verus!
