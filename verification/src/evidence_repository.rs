//! An append-only, hash-chained repository of audit evidence.

use vstd::prelude::*;
use std::collections::VecDeque;
use crate::digest::{sha256, sha256_digest, hex_encode, hex_lower, le_bytes, push_le_bytes, push_all};
use crate::failure_axis::{FailureAxis, SystemHalt};
use crate::text::{decimal, push_str, push_decimal, string_push, str_chars};

verus! {

/// One audit record: its place in the chain, its content and its hashes.
pub struct AuditRecord {
    pub sequence: u64,
    /// Nanoseconds.
    pub timestamp: u128,
    /// Hash of the previous record (the repository root for the first).
    pub parent_hash: Vec<u8>,
    /// Hash of this record's content.
    pub record_hash: Vec<u8>,
    pub failure_class: String,
    pub evidence: String,
    /// Space for a TPM signature.
    pub signature_placeholder: Vec<u8>,
}

/// The bytes a record's hash covers: sequence (8 bytes LE), timestamp (16 bytes
/// LE), parent hash, class text and evidence text (UTF-8).
pub open spec fn record_bytes(r: AuditRecord) -> Seq<u8> {
    le_bytes(r.sequence as nat, 8) + le_bytes(r.timestamp as nat, 16) + r.parent_hash@
        + vstd::utf8::encode_utf8(r.failure_class@) + vstd::utf8::encode_utf8(r.evidence@)
}

/// The SHA-256 of a record's content.
pub open spec fn content_hash(r: AuditRecord) -> Seq<u8> {
    sha256(record_bytes(r))
}

/// A record's hash covers its evidence text: two records that agree in sequence,
/// timestamp, parent hash and class but differ in evidence have different hashed
/// bytes, and the hashed bytes of each are sequence (8 bytes LE), timestamp
/// (16 bytes LE), parent hash, UTF-8 class text and UTF-8 evidence text, in that
/// order.
pub proof fn lemma_record_bytes_cover_evidence(a: AuditRecord, b: AuditRecord)
    requires
        a.sequence == b.sequence,
        a.timestamp == b.timestamp,
        a.parent_hash@ == b.parent_hash@,
        a.failure_class@ == b.failure_class@,
        a.evidence@ != b.evidence@,
    ensures
        record_bytes(a) == le_bytes(a.sequence as nat, 8) + le_bytes(a.timestamp as nat, 16)
            + a.parent_hash@ + vstd::utf8::encode_utf8(a.failure_class@)
            + vstd::utf8::encode_utf8(a.evidence@),
        record_bytes(a) != record_bytes(b),
{
    broadcast use vstd::utf8::encode_utf8_decode_utf8;

    let prefix = le_bytes(a.sequence as nat, 8) + le_bytes(a.timestamp as nat, 16) + a.parent_hash@
        + vstd::utf8::encode_utf8(a.failure_class@);
    let ea = vstd::utf8::encode_utf8(a.evidence@);
    let eb = vstd::utf8::encode_utf8(b.evidence@);
    assert(record_bytes(a) =~= prefix + ea);
    assert(record_bytes(b) =~= prefix + eb);
    if record_bytes(a) == record_bytes(b) {
        assert((prefix + ea).subrange(prefix.len() as int, (prefix + ea).len() as int) =~= ea);
        assert((prefix + eb).subrange(prefix.len() as int, (prefix + eb).len() as int) =~= eb);
        assert(ea == eb);
        assert(vstd::utf8::decode_utf8(ea) == a.evidence@);
        assert(vstd::utf8::decode_utf8(eb) == b.evidence@);
    }
}

impl AuditRecord {
    /// SHA-256 of the record's sequence, timestamp, parent hash, class and evidence.
    pub fn compute_hash(&self) -> (res: Vec<u8>)
        ensures
            res@ == content_hash(*self),
            res@ == sha256(
                le_bytes(self.sequence as nat, 8) + le_bytes(self.timestamp as nat, 16)
                    + self.parent_hash@ + vstd::utf8::encode_utf8(self.failure_class@)
                    + vstd::utf8::encode_utf8(self.evidence@),
            ),
            res@.len() == 32,
    {
        let mut bytes: Vec<u8> = Vec::new();
        push_le_bytes(&mut bytes, self.sequence as u128, 8);
        push_le_bytes(&mut bytes, self.timestamp, 16);
        push_all(&mut bytes, self.parent_hash.as_slice());
        push_all(&mut bytes, self.failure_class.as_str().as_bytes());
        push_all(&mut bytes, self.evidence.as_str().as_bytes());
        proof {
            assert(bytes@ =~= record_bytes(*self));
        }
        sha256_digest(bytes.as_slice())
    }
}

/// The classes of timing evidence.
#[derive(PartialEq, Eq, Structural, Clone, Copy, Debug)]
pub enum EvidenceClass {
    /// Timing within tolerance.
    TimingOk,
    /// Phase or frequency offset beyond threshold.
    TimingDrift,
    /// Parity or hash mismatch.
    DataCorruption,
    /// Injected adversarial fault.
    InjectionDetected,
    /// Authority or stratum degradation.
    AuthorityInversion,
}

/// The text of an evidence class.
pub open spec fn class_text(c: EvidenceClass) -> Seq<char> {
    match c {
        EvidenceClass::TimingOk => "TIMING_OK"@,
        EvidenceClass::TimingDrift => "TIMING_DRIFT"@,
        EvidenceClass::DataCorruption => "DATA_CORRUPTION"@,
        EvidenceClass::InjectionDetected => "INJECTION_DETECTED"@,
        EvidenceClass::AuthorityInversion => "AUTHORITY_INVERSION"@,
    }
}

impl EvidenceClass {
    /// `TIMING_OK`, `TIMING_DRIFT`, `DATA_CORRUPTION`, `INJECTION_DETECTED` or
    /// `AUTHORITY_INVERSION`.
    pub fn to_string(&self) -> (res: String)
        ensures
            res@ == class_text(*self),
    {
        let t = match self {
            EvidenceClass::TimingOk => "TIMING_OK",
            EvidenceClass::TimingDrift => "TIMING_DRIFT",
            EvidenceClass::DataCorruption => "DATA_CORRUPTION",
            EvidenceClass::InjectionDetected => "INJECTION_DETECTED",
            EvidenceClass::AuthorityInversion => "AUTHORITY_INVERSION",
        };
        String::from_str(t)
    }
}

/// The records of a repository, its root hash, its record count and the hash the
/// next record will link to.
pub struct EvidenceRepository {
    records: VecDeque<AuditRecord>,
    root_hash: Vec<u8>,
    total_records: u64,
    last_hash: Vec<u8>,
}

/// A repository as plain values.
pub struct RepoView {
    pub records: Seq<AuditRecord>,
    pub root_hash: Seq<u8>,
    pub total_records: u64,
    pub last_hash: Seq<u8>,
}

impl View for EvidenceRepository {
    type V = RepoView;

    closed spec fn view(&self) -> RepoView {
        RepoView {
            records: self.records@,
            root_hash: self.root_hash@,
            total_records: self.total_records,
            last_hash: self.last_hash@,
        }
    }
}

/// The text whose hash is the repository root.
pub open spec fn root_text() -> Seq<char> {
    "ISE_EVIDENCE_REPOSITORY_ROOT"@
}

/// The root hash of every repository.
pub open spec fn repository_root() -> Seq<u8> {
    sha256(vstd::utf8::encode_utf8(root_text()))
}

/// The parent hash record `i` must carry.
pub open spec fn expected_parent(recs: Seq<AuditRecord>, root: Seq<u8>, i: int) -> Seq<u8> {
    if i == 0 {
        root
    } else {
        recs[i - 1].record_hash@
    }
}

/// Record `i` links to its predecessor and its hash covers its content.
pub open spec fn link_ok(recs: Seq<AuditRecord>, root: Seq<u8>, i: int) -> bool {
    &&& recs[i].parent_hash@ == expected_parent(recs, root, i)
    &&& content_hash(recs[i]) == recs[i].record_hash@
}

/// The halt message for the first broken record `i`.
pub open spec fn chain_break_message(recs: Seq<AuditRecord>, root: Seq<u8>, i: int) -> Seq<char> {
    if recs[i].parent_hash@ != expected_parent(recs, root, i) {
        "Evidence chain broken at record "@ + decimal(i as nat) + ": parent hash mismatch"@
    } else {
        "Evidence record "@ + decimal(i as nat) + " tampered: hash mismatch"@
    }
}

/// Every record before `n` is soundly linked.
pub open spec fn links_ok_before(recs: Seq<AuditRecord>, root: Seq<u8>, n: int) -> bool {
    forall|j: int| #![trigger link_ok(recs, root, j)] 0 <= j < n ==> link_ok(recs, root, j)
}

/// What a repository built by appending holds: one record per append, numbered
/// from 0, each linked to its predecessor (the root for the first) and hashed
/// over its content, and the last hash pointing at the newest record.
pub open spec fn well_formed(v: RepoView) -> bool {
    &&& v.total_records == v.records.len()
    &&& v.root_hash == repository_root()
    &&& forall|i: int| 0 <= i < v.records.len() ==> #[trigger] v.records[i].sequence == i
    &&& links_ok_before(v.records, v.root_hash, v.records.len() as int)
    &&& v.last_hash == expected_parent(v.records, v.root_hash, v.records.len() as int)
}

/// The record hashes of `recs`, concatenated in order.
pub open spec fn hash_concat(recs: Seq<AuditRecord>) -> Seq<u8>
    decreases recs.len(),
{
    if recs.len() == 0 {
        Seq::empty()
    } else {
        hash_concat(recs.drop_last()) + recs.last().record_hash@
    }
}

/// How many records of `recs` carry class text `t`.
pub open spec fn count_class(recs: Seq<AuditRecord>, t: Seq<char>) -> nat
    decreases recs.len(),
{
    if recs.len() == 0 {
        0
    } else {
        count_class(recs.drop_last(), t) + if recs.last().failure_class@ == t {
            1nat
        } else {
            0nat
        }
    }
}

/// `s` with each `"` preceded by a backslash.
pub open spec fn escape_quotes(s: Seq<char>) -> Seq<char>
    decreases s.len(),
{
    if s.len() == 0 {
        Seq::empty()
    } else {
        escape_quotes(s.drop_last()) + if s.last() == '"' {
            seq!['\\', '"']
        } else {
            seq![s.last()]
        }
    }
}

/// The timeline line of a record.
pub open spec fn timeline_line(r: AuditRecord) -> Seq<char> {
    decimal(r.sequence as nat) + ","@ + decimal(r.timestamp as nat) + ","@ + r.failure_class@ + ","@
        + escape_quotes(r.evidence@) + "\n"@
}

/// The timeline lines of `recs`, concatenated in order.
pub open spec fn timeline_lines(recs: Seq<AuditRecord>) -> Seq<char>
    decreases recs.len(),
{
    if recs.len() == 0 {
        Seq::empty()
    } else {
        timeline_lines(recs.drop_last()) + timeline_line(recs.last())
    }
}

/// The CSV header of the timeline.
pub open spec fn timeline_header() -> Seq<char> {
    "sequence,timestamp_ns,failure_class,evidence\n"@
}

/// Whether two byte vectors are equal.
fn bytes_equal(a: &Vec<u8>, b: &Vec<u8>) -> (res: bool)
    ensures
        res == (a@ == b@),
{
    if a.len() != b.len() {
        return false;
    }
    let mut i: usize = 0;
    while i < a.len()
        invariant
            i <= a@.len(),
            a@.len() == b@.len(),
            forall|j: int| 0 <= j < i ==> a@[j] == b@[j],
        decreases a@.len() - i,
    {
        if a[i] != b[i] {
            return false;
        }
        i += 1;
    }
    proof {
        assert(a@ =~= b@);
    }
    true
}

/// A copy of a byte vector.
fn copy_bytes(a: &Vec<u8>) -> (res: Vec<u8>)
    ensures
        res@ == a@,
{
    let mut out: Vec<u8> = Vec::new();
    push_all(&mut out, a.as_slice());
    out
}

impl EvidenceRepository {
    /// Every repository is as appending builds it.
    #[verifier::type_invariant]
    spec fn built_by_appending(self) -> bool {
        well_formed(self@)
    }

    /// An empty repository rooted at the SHA-256 of `ISE_EVIDENCE_REPOSITORY_ROOT`.
    pub fn new() -> (res: Self)
        ensures
            res@.records.len() == 0,
            res@.total_records == 0,
            res@.root_hash == repository_root(),
            res@.last_hash == repository_root(),
            well_formed(res@),
    {
        let root = sha256_digest("ISE_EVIDENCE_REPOSITORY_ROOT".as_bytes());
        let last = copy_bytes(&root);
        EvidenceRepository { records: VecDeque::new(), root_hash: root, total_records: 0, last_hash: last }
    }

    /// Appends a record of `class` and `evidence` at `timestamp`, numbered with the
    /// record count and linked to the last hash, and returns its hash.
    pub fn append_evidence(&mut self, timestamp: u128, class: EvidenceClass, evidence: String) -> (res: Vec<u8>)
        requires
            old(self)@.total_records < u64::MAX,
        ensures
            ({
                let r = final(self)@.records.last();
                &&& final(self)@.records == old(self)@.records.push(r)
                &&& r.sequence == old(self)@.total_records
                &&& r.sequence == old(self)@.records.len()
                &&& r.timestamp == timestamp
                &&& r.parent_hash@ == old(self)@.last_hash
                &&& r.parent_hash@ == expected_parent(
                    old(self)@.records,
                    repository_root(),
                    old(self)@.records.len() as int,
                )
                &&& r.failure_class@ == class_text(class)
                &&& r.evidence@ == evidence@
                &&& r.signature_placeholder@.len() == 0
                &&& r.record_hash@ == content_hash(r)
                &&& res@ == r.record_hash@
            }),
            final(self)@.total_records == old(self)@.total_records + 1,
            final(self)@.root_hash == old(self)@.root_hash,
            final(self)@.last_hash == res@,
            well_formed(old(self)@),
            well_formed(final(self)@),
    {
        proof {
            use_type_invariant(&*self);
        }
        let root = copy_bytes(&self.root_hash);
        let mut taken = EvidenceRepository {
            records: VecDeque::new(),
            root_hash: copy_bytes(&root),
            total_records: 0,
            last_hash: root,
        };
        std::mem::swap(self, &mut taken);
        let ghost old_v = taken@;
        let EvidenceRepository { mut records, root_hash, total_records, last_hash } = taken;
        let record = AuditRecord {
            sequence: total_records,
            timestamp,
            parent_hash: copy_bytes(&last_hash),
            record_hash: Vec::new(),
            failure_class: class.to_string(),
            evidence,
            signature_placeholder: Vec::new(),
        };
        let computed_hash = record.compute_hash();
        let mut final_record = record;
        final_record.record_hash = copy_bytes(&computed_hash);
        proof {
            assert(record_bytes(final_record) == record_bytes(record));
        }
        records.push_back(final_record);
        proof {
            let recs = records@;
            let n = old_v.records.len() as int;
            assert(recs.last() == final_record);
            assert forall|i: int| 0 <= i < recs.len() implies #[trigger] recs[i].sequence == i by {
                if i < n {
                    assert(recs[i] == old_v.records[i]);
                }
            }
            assert forall|j: int| 0 <= j < recs.len() implies #[trigger] link_ok(recs, root_hash@, j) by {
                if j < n {
                    assert(recs[j] == old_v.records[j]);
                    assert(link_ok(old_v.records, old_v.root_hash, j));
                    if j > 0 {
                        assert(recs[j - 1] == old_v.records[j - 1]);
                    }
                } else {
                    if n > 0 {
                        assert(recs[n - 1] == old_v.records[n - 1]);
                    }
                }
            }
        }
        *self = EvidenceRepository {
            records,
            root_hash,
            total_records: total_records + 1,
            last_hash: copy_bytes(&computed_hash),
        };
        computed_hash
    }

    /// SHA-256 of all record hashes concatenated in order.
    pub fn compute_fingerprint(&self) -> (res: Vec<u8>)
        ensures
            res@ == sha256(hash_concat(self@.records)),
            res@.len() == 32,
    {
        let mut bytes: Vec<u8> = Vec::new();
        let mut i: usize = 0;
        while i < self.records.len()
            invariant
                i <= self@.records.len(),
                bytes@ == hash_concat(self@.records.take(i as int)),
            decreases self@.records.len() - i,
        {
            push_all(&mut bytes, self.records[i].record_hash.as_slice());
            i += 1;
            proof {
                assert(self@.records.take(i as int).drop_last() =~= self@.records.take(i - 1));
            }
        }
        proof {
            assert(self@.records.take(i as int) =~= self@.records);
        }
        sha256_digest(bytes.as_slice())
    }

    /// Checks every record in order: its parent hash must be the previous record's
    /// hash (the root for the first) and its hash must match its content. Halts at
    /// the first record that fails.
    pub fn verify_chain_integrity(&self) -> (res: Result<(), SystemHalt>)
        ensures
            ({
                let v = self@;
                match res {
                    Ok(_) => links_ok_before(v.records, v.root_hash, v.records.len() as int),
                    Err(h) => exists|i: int|
                        #![trigger link_ok(v.records, v.root_hash, i)]
                        0 <= i < v.records.len() && !link_ok(v.records, v.root_hash, i)
                            && links_ok_before(v.records, v.root_hash, i) && h.axis
                            == FailureAxis::ExternalInjectionDetected && h.message@
                            == chain_break_message(v.records, v.root_hash, i),
                }
            }),
            res is Ok,
    {
        proof {
            use_type_invariant(self);
        }
        let ghost v = self@;
        let mut expected_parent_hash = copy_bytes(&self.root_hash);
        let mut i: usize = 0;
        while i < self.records.len()
            invariant
                v == self@,
                well_formed(v),
                i <= v.records.len(),
                expected_parent_hash@ == expected_parent(v.records, v.root_hash, i as int),
                links_ok_before(v.records, v.root_hash, i as int),
            decreases v.records.len() - i,
        {
            let record = &self.records[i];
            if !bytes_equal(&record.parent_hash, &expected_parent_hash) {
                let mut m = String::from_str("Evidence chain broken at record ");
                push_decimal(&mut m, i as u128);
                push_str(&mut m, ": parent hash mismatch");
                proof {
                    assert(!link_ok(v.records, v.root_hash, i as int));
                }
                return Err(SystemHalt::with_formatted(FailureAxis::ExternalInjectionDetected, m));
            }
            let recomputed = record.compute_hash();
            if !bytes_equal(&recomputed, &record.record_hash) {
                let mut m = String::from_str("Evidence record ");
                push_decimal(&mut m, i as u128);
                push_str(&mut m, " tampered: hash mismatch");
                proof {
                    assert(!link_ok(v.records, v.root_hash, i as int));
                }
                return Err(SystemHalt::with_formatted(FailureAxis::ExternalInjectionDetected, m));
            }
            proof {
                assert(link_ok(v.records, v.root_hash, i as int));
            }
            expected_parent_hash = copy_bytes(&record.record_hash);
            i += 1;
        }
        Ok(())
    }

    /// The number of records appended.
    pub fn len(&self) -> (res: u64)
        ensures
            res == self@.total_records,
            res == self@.records.len(),
            well_formed(self@),
    {
        proof {
            use_type_invariant(self);
        }
        self.total_records
    }

    /// Whether no record was appended.
    pub fn is_empty(&self) -> (res: bool)
        ensures
            res == (self@.total_records == 0),
    {
        self.total_records == 0
    }

    /// The record at `index`, if it is below the record count.
    pub fn get(&self, index: u64) -> (res: Option<&AuditRecord>)
        ensures
            match res {
                Some(r) => index < self@.records.len() && *r == self@.records[index as int] && r.sequence
                    == index,
                None => index >= self@.records.len(),
            },
            self@.total_records == self@.records.len(),
    {
        proof {
            use_type_invariant(self);
        }
        if index >= self.total_records {
            return None;
        }
        if (index as u128) < (self.records.len() as u128) {
            Some(&self.records[index as usize])
        } else {
            None
        }
    }

    /// The hash the first record links to.
    pub fn root_hash(&self) -> (res: &Vec<u8>)
        ensures
            res@ == self@.root_hash,
    {
        &self.root_hash
    }

    /// The hash the next record will link to.
    pub fn last_hash(&self) -> (res: &Vec<u8>)
        ensures
            res@ == self@.last_hash,
    {
        &self.last_hash
    }

    /// The records, oldest first.
    pub fn iter(&self) -> (res: &VecDeque<AuditRecord>)
        ensures
            res@ == self@.records,
    {
        &self.records
    }

    /// Counts of records per class, the record count, and the hex fingerprint.
    pub fn compliance_summary(&self) -> (res: ComplianceSummary)
        ensures
            res.total_records == self@.total_records,
            res.timing_ok_count == count_class(self@.records, class_text(EvidenceClass::TimingOk)),
            res.timing_drift_count == count_class(self@.records, class_text(EvidenceClass::TimingDrift)),
            res.data_corruption_count == count_class(
                self@.records,
                class_text(EvidenceClass::DataCorruption),
            ),
            res.injection_detected_count == count_class(
                self@.records,
                class_text(EvidenceClass::InjectionDetected),
            ),
            res.authority_inversion_count == count_class(
                self@.records,
                class_text(EvidenceClass::AuthorityInversion),
            ),
            res.fingerprint@ == hex_lower(sha256(hash_concat(self@.records))),
    {
        let ghost recs = self@.records;
        let ok_t = EvidenceClass::TimingOk.to_string();
        let drift_t = EvidenceClass::TimingDrift.to_string();
        let corrupt_t = EvidenceClass::DataCorruption.to_string();
        let inject_t = EvidenceClass::InjectionDetected.to_string();
        let auth_t = EvidenceClass::AuthorityInversion.to_string();
        let mut ok: u64 = 0;
        let mut drift: u64 = 0;
        let mut corrupt: u64 = 0;
        let mut inject: u64 = 0;
        let mut auth: u64 = 0;
        let mut i: usize = 0;
        while i < self.records.len()
            invariant
                i <= recs.len(),
                recs == self@.records,
                ok_t@ == class_text(EvidenceClass::TimingOk),
                drift_t@ == class_text(EvidenceClass::TimingDrift),
                corrupt_t@ == class_text(EvidenceClass::DataCorruption),
                inject_t@ == class_text(EvidenceClass::InjectionDetected),
                auth_t@ == class_text(EvidenceClass::AuthorityInversion),
                ok == count_class(recs.take(i as int), ok_t@),
                drift == count_class(recs.take(i as int), drift_t@),
                corrupt == count_class(recs.take(i as int), corrupt_t@),
                inject == count_class(recs.take(i as int), inject_t@),
                auth == count_class(recs.take(i as int), auth_t@),
                ok <= i,
                drift <= i,
                corrupt <= i,
                inject <= i,
                auth <= i,
            decreases recs.len() - i,
        {
            let c = &self.records[i].failure_class;
            proof {
                assert(recs.take(i + 1).drop_last() =~= recs.take(i as int));
                assert(recs.take(i + 1).last() == recs[i as int]);
            }
            if *c == ok_t {
                ok = ok + 1;
            }
            if *c == drift_t {
                drift = drift + 1;
            }
            if *c == corrupt_t {
                corrupt = corrupt + 1;
            }
            if *c == inject_t {
                inject = inject + 1;
            }
            if *c == auth_t {
                auth = auth + 1;
            }
            i += 1;
        }
        proof {
            assert(recs.take(i as int) =~= recs);
        }
        let fingerprint = hex_encode(self.compute_fingerprint().as_slice());
        ComplianceSummary {
            total_records: self.total_records,
            timing_ok_count: ok,
            timing_drift_count: drift,
            data_corruption_count: corrupt,
            injection_detected_count: inject,
            authority_inversion_count: auth,
            fingerprint,
        }
    }

    /// The records as CSV: a header line, then `sequence,timestamp,class,evidence`
    /// per record with `"` in the evidence escaped by a backslash.
    pub fn to_csv_timeline(&self) -> (res: String)
        ensures
            res@ == timeline_header() + timeline_lines(self@.records),
    {
        let ghost recs = self@.records;
        let mut csv = String::from_str("sequence,timestamp_ns,failure_class,evidence\n");
        let mut i: usize = 0;
        while i < self.records.len()
            invariant
                i <= recs.len(),
                recs == self@.records,
                csv@ == timeline_header() + timeline_lines(recs.take(i as int)),
            decreases recs.len() - i,
        {
            let r = &self.records[i];
            let ghost before = csv@;
            push_decimal(&mut csv, r.sequence as u128);
            string_push(&mut csv, ',');
            push_decimal(&mut csv, r.timestamp);
            string_push(&mut csv, ',');
            push_str(&mut csv, r.failure_class.as_str());
            string_push(&mut csv, ',');
            push_escaped(&mut csv, r.evidence.as_str());
            string_push(&mut csv, '\n');
            proof {
                reveal_strlit(",");
                reveal_strlit("\n");
                assert(recs.take(i + 1).drop_last() =~= recs.take(i as int));
                assert(recs.take(i + 1).last() == recs[i as int]);
                assert(csv@ =~= before + timeline_line(recs[i as int]));
            }
            i += 1;
        }
        proof {
            assert(recs.take(i as int) =~= recs);
        }
        csv
    }
}

/// Appends `t` to `s` with each `"` preceded by a backslash.
fn push_escaped(s: &mut String, t: &str)
    ensures
        final(s)@ == old(s)@ + escape_quotes(t@),
{
    let chars = str_chars(t);
    let mut i: usize = 0;
    while i < chars.len()
        invariant
            i <= chars@.len(),
            chars@ == t@,
            s@ == old(s)@ + escape_quotes(t@.take(i as int)),
        decreases chars@.len() - i,
    {
        let c = chars[i];
        if c == '"' {
            string_push(s, '\\');
            string_push(s, '"');
        } else {
            string_push(s, c);
        }
        proof {
            assert(t@.take(i + 1).drop_last() =~= t@.take(i as int));
            assert(t@.take(i + 1).last() == c);
        }
        i += 1;
    }
    proof {
        assert(t@.take(i as int) =~= t@);
    }
}

impl Default for EvidenceRepository {
    fn default() -> (res: Self)
        ensures
            res@.records.len() == 0,
            res@.total_records == 0,
            res@.root_hash == repository_root(),
            res@.last_hash == repository_root(),
            well_formed(res@),
    {
        EvidenceRepository::new()
    }
}

/// Counts of a repository's records per class, its record count and fingerprint.
pub struct ComplianceSummary {
    pub total_records: u64,
    pub timing_ok_count: u64,
    pub timing_drift_count: u64,
    pub data_corruption_count: u64,
    pub injection_detected_count: u64,
    pub authority_inversion_count: u64,
    pub fingerprint: String,
}

impl Default for ComplianceSummary {
    fn default() -> (res: Self)
        ensures
            res.total_records == 0,
            res.timing_ok_count == 0,
            res.timing_drift_count == 0,
            res.data_corruption_count == 0,
            res.injection_detected_count == 0,
            res.authority_inversion_count == 0,
            res.fingerprint@.len() == 0,
    {
        ComplianceSummary {
            total_records: 0,
            timing_ok_count: 0,
            timing_drift_count: 0,
            data_corruption_count: 0,
            injection_detected_count: 0,
            authority_inversion_count: 0,
            fingerprint: String::new(),
        }
    }
}

impl ComplianceSummary {
    /// Records of every failure class together.
    pub fn total_failures(&self) -> (res: u64)
        requires
            self.timing_drift_count + self.data_corruption_count + self.injection_detected_count
                + self.authority_inversion_count <= u64::MAX,
        ensures
            res == self.timing_drift_count + self.data_corruption_count + self.injection_detected_count
                + self.authority_inversion_count,
    {
        self.timing_drift_count + self.data_corruption_count + self.injection_detected_count
            + self.authority_inversion_count
    }

    /// No failures among at least one record.
    pub fn is_compliant(&self) -> (res: bool)
        requires
            self.timing_drift_count + self.data_corruption_count + self.injection_detected_count
                + self.authority_inversion_count <= u64::MAX,
        ensures
            res == (self.timing_drift_count + self.data_corruption_count
                + self.injection_detected_count + self.authority_inversion_count == 0
                && self.total_records > 0),
    {
        self.total_failures() == 0 && self.total_records > 0
    }
}

/// Every repository that `new` and `append_evidence` build passes the chain
/// integrity check: each record links to its predecessor and hashes its content.
pub proof fn lemma_appended_chain_intact(v: RepoView)
    requires
        well_formed(v),
    ensures
        forall|i: int| 0 <= i < v.records.len() ==> #[trigger] link_ok(v.records, v.root_hash, i),
{
}

} // verus!
