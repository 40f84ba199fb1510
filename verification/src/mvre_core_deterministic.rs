//! Deterministic execution commitments: a transaction scratchpad and the hashes
//! that commit an execution.

use vstd::prelude::*;
use crate::digest::{sha256, sha256_digest, le_bytes, push_le_bytes, push_all};

verus! {

/// The hashes that commit one execution, and the resulting state version.
#[derive(Clone, Debug, PartialEq, Eq)]
pub struct ExecutionCommitment {
    pub parent_state_hash: [u8; 32],
    pub canonical_input_hash: [u8; 32],
    pub execution_trace_hash: [u8; 32],
    pub transition_hash: [u8; 32],
    pub final_state_hash: [u8; 32],
    pub state_version: u64,
}

/// The canonical bytes of a commitment: the five hashes in field order, then the
/// state version as 8 little-endian bytes.
pub open spec fn commitment_bytes(c: ExecutionCommitment) -> Seq<u8> {
    c.parent_state_hash@ + c.canonical_input_hash@ + c.execution_trace_hash@ + c.transition_hash@
        + c.final_state_hash@ + le_bytes(c.state_version as nat, 8)
}

impl ExecutionCommitment {
    /// The commitment's canonical bytes (168 of them).
    pub fn to_bytes(&self) -> (res: Vec<u8>)
        ensures
            res@ == commitment_bytes(*self),
    {
        let mut out: Vec<u8> = Vec::new();
        push_all(&mut out, self.parent_state_hash.as_slice());
        push_all(&mut out, self.canonical_input_hash.as_slice());
        push_all(&mut out, self.execution_trace_hash.as_slice());
        push_all(&mut out, self.transition_hash.as_slice());
        push_all(&mut out, self.final_state_hash.as_slice());
        push_le_bytes(&mut out, self.state_version as u128, 8);
        out
    }
}

/// `c` commits an execution on `parent` of the given input, trace, transition
/// record and final state at `version`: each hash is the SHA-256 of its part.
pub open spec fn commits(
    c: ExecutionCommitment,
    parent: Seq<u8>,
    input: Seq<u8>,
    trace: Seq<u8>,
    transition: Seq<u8>,
    fin: Seq<u8>,
    version: u64,
) -> bool {
    &&& c.parent_state_hash@ == parent
    &&& c.canonical_input_hash@ == sha256(input)
    &&& c.execution_trace_hash@ == sha256(trace)
    &&& c.transition_hash@ == sha256(transition)
    &&& c.final_state_hash@ == sha256(fin)
    &&& c.state_version == version
}

/// Commitments are deterministic: two commitments of the same parent, input,
/// trace, transition record, final state and version are equal.
pub proof fn lemma_commit_deterministic(
    a: ExecutionCommitment,
    b: ExecutionCommitment,
    parent: Seq<u8>,
    input: Seq<u8>,
    trace: Seq<u8>,
    transition: Seq<u8>,
    fin: Seq<u8>,
    version: u64,
)
    requires
        commits(a, parent, input, trace, transition, fin, version),
        commits(b, parent, input, trace, transition, fin, version),
    ensures
        a == b,
{
    assert(a.parent_state_hash =~= b.parent_state_hash);
    assert(a.canonical_input_hash =~= b.canonical_input_hash);
    assert(a.execution_trace_hash =~= b.execution_trace_hash);
    assert(a.transition_hash =~= b.transition_hash);
    assert(a.final_state_hash =~= b.final_state_hash);
}

/// Why an execution could not be committed.
#[derive(Debug)]
pub enum MVREError {
    ExecutionFailure(String),
    HashingError,
    InvalidState(String),
    Abort(String),
}

/// Something that runs deterministically inside a transaction.
pub trait DeterministicExecutable {
    /// Runs against the transaction's scratchpad.
    fn execute(&self, tx: &mut Transaction) -> Result<(), MVREError>;
}

/// A transaction: scratch bytes, the state it started from, and whether it was committed.
pub struct Transaction {
    pub scratchpad: Vec<u8>,
    pub parent_state_hash: [u8; 32],
    pub committed: bool,
}

/// The SHA-256 of `data` as a fixed 32-byte array.
fn sha256_fixed(data: &[u8]) -> (res: [u8; 32])
    ensures
        res@ == sha256(data@),
{
    let d = sha256_digest(data);
    let mut out = [0u8; 32];
    let mut i: usize = 0;
    while i < 32
        invariant
            i <= 32,
            d@.len() == 32,
            d@ == sha256(data@),
            forall|j: int| 0 <= j < i ==> out@[j] == d@[j],
        decreases 32 - i,
    {
        out[i] = d[i];
        i += 1;
    }
    proof {
        assert(out@ =~= d@);
    }
    out
}

impl Transaction {
    /// A fresh transaction on top of `parent_state_hash`.
    pub fn new(parent_state_hash: [u8; 32]) -> (res: Self)
        ensures
            res.scratchpad@.len() == 0,
            res.parent_state_hash == parent_state_hash,
            !res.committed,
    {
        Transaction { scratchpad: Vec::new(), parent_state_hash, committed: false }
    }

    /// Appends `data` to the scratchpad.
    pub fn append(&mut self, data: &[u8])
        ensures
            final(self).scratchpad@ == old(self).scratchpad@ + data@,
            final(self).parent_state_hash == old(self).parent_state_hash,
            final(self).committed == old(self).committed,
    {
        push_all(&mut self.scratchpad, data);
    }

    /// Discards the scratchpad and the committed mark.
    pub fn rollback(&mut self)
        ensures
            final(self).scratchpad@.len() == 0,
            final(self).parent_state_hash == old(self).parent_state_hash,
            !final(self).committed,
    {
        self.scratchpad.clear();
        self.committed = false;
    }

    /// Commits the execution: the SHA-256 of the input, trace, transition record
    /// and final state, on top of the parent hash, at `state_version`. A
    /// transaction already committed is refused.
    pub fn commit(
        self,
        canonical_input: &[u8],
        execution_trace: &[u8],
        transition_record: &[u8],
        final_state: &[u8],
        state_version: u64,
    ) -> (res: Result<ExecutionCommitment, MVREError>)
        ensures
            self.committed ==> (res is Err && (res->Err_0 matches MVREError::InvalidState(m) && m@
                == "already committed"@)),
            !self.committed ==> ({
                &&& res is Ok
                &&& commits(
                    res->Ok_0,
                    self.parent_state_hash@,
                    canonical_input@,
                    execution_trace@,
                    transition_record@,
                    final_state@,
                    state_version,
                )
            }),
    {
        if self.committed {
            return Err(MVREError::InvalidState(String::from_str("already committed")));
        }
        let canonical_input_hash = sha256_fixed(canonical_input);
        let execution_trace_hash = sha256_fixed(execution_trace);
        let transition_hash = sha256_fixed(transition_record);
        let final_state_hash = sha256_fixed(final_state);
        Ok(
            ExecutionCommitment {
                parent_state_hash: self.parent_state_hash,
                canonical_input_hash,
                execution_trace_hash,
                transition_hash,
                final_state_hash,
                state_version,
            },
        )
    }
}

} // verus!
