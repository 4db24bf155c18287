//! The records of the ledger, their canonical texts, and the error kinds.
use crate::digest::{json_string_of, push_json_string, push_signed_decimal, push_decimal, decimal, signed_decimal};
use vstd::prelude::*;

verus! {

/// One ballot as it arrives: who voted, for what, and when (epoch seconds).
#[derive(Debug, Clone, PartialEq, Eq)]
pub struct Vote {
    pub voter_id: String,
    pub choice: String,
    pub ts: i64,
}

/// One link of the chain: the hash of its vote, the hash of the block before
/// it (`"0"` for the first block), and its own hash over the other fields.
#[derive(Debug, Clone, PartialEq, Eq)]
pub struct Block {
    pub index: u64,
    pub vote_hash: String,
    pub prev_hash: String,
    pub timestamp: i64,
    pub hash: String,
}

/// What can go wrong while accepting a vote or reading the ledger.
#[derive(Debug, PartialEq, Eq)]
pub enum LedgerError {
    /// The vote is malformed; nothing was stored.
    Validation,
    /// The store failed before anything was stored; it said this.
    Store(String),
    /// Stored blocks do not link up or do not hash to what they hold.
    ChainIntegrity,
    /// The vote was stored but its block was not; the store said this.
    PartialIngestion(String),
}

impl LedgerError {
    /// A short human-readable description.
    pub fn message(&self) -> (r: String)
        ensures
            self is Validation ==> r@ == "vote must name a voter and a choice"@,
            self is Store ==> r@ == self->Store_0@,
            self is ChainIntegrity ==> r@ == "stored blocks fail verification"@,
            self is PartialIngestion ==> r@ == self->PartialIngestion_0@,
    {
        match self {
            LedgerError::Validation => {
                let mut m = String::new();
                m.append("vote must name a voter and a choice");
                assert(m@ =~= "vote must name a voter and a choice"@);
                m
            },
            LedgerError::Store(m) => m.clone(),
            LedgerError::ChainIntegrity => {
                let mut m = String::new();
                m.append("stored blocks fail verification");
                assert(m@ =~= "stored blocks fail verification"@);
                m
            },
            LedgerError::PartialIngestion(m) => m.clone(),
        }
    }
}

/// The canonical text of a vote: compact JSON with fields in a fixed order.
pub open spec fn vote_text(voter_id: Seq<char>, choice: Seq<char>, ts: int) -> Seq<char> {
    "{\"voter_id\":"@ + json_string_of(voter_id) + ",\"choice\":"@ + json_string_of(choice)
        + ",\"ts\":"@ + signed_decimal(ts) + "}"@
}

/// The canonical text of a block's fields other than its hash: compact JSON
/// in a fixed order, with the hash field present and empty.
pub open spec fn block_text(
    index: nat,
    vote_hash: Seq<char>,
    prev_hash: Seq<char>,
    timestamp: int,
) -> Seq<char> {
    "{\"index\":"@ + decimal(index) + ",\"vote_hash\":"@ + json_string_of(vote_hash)
        + ",\"prev_hash\":"@ + json_string_of(prev_hash) + ",\"timestamp\":"@ + signed_decimal(
        timestamp,
    ) + ",\"hash\":\"\"}"@
}

impl Vote {
    /// The canonical text that the vote's hash is taken over.
    pub fn canonical_text(&self) -> (r: String)
        ensures
            r@ == vote_text(self.voter_id@, self.choice@, self.ts as int),
    {
        let mut out = String::new();
        out.append("{\"voter_id\":");
        push_json_string(&mut out, self.voter_id.as_str());
        out.append(",\"choice\":");
        push_json_string(&mut out, self.choice.as_str());
        out.append(",\"ts\":");
        push_signed_decimal(&mut out, self.ts);
        out.append("}");
        assert(out@ =~= vote_text(self.voter_id@, self.choice@, self.ts as int));
        out
    }
}

/// The canonical text of block fields, which the block's hash is taken over.
pub fn block_canonical_text(index: u64, vote_hash: &str, prev_hash: &str, timestamp: i64) -> (r:
    String)
    ensures
        r@ == block_text(index as nat, vote_hash@, prev_hash@, timestamp as int),
{
    let mut out = String::new();
    out.append("{\"index\":");
    push_decimal(&mut out, index);
    out.append(",\"vote_hash\":");
    push_json_string(&mut out, vote_hash);
    out.append(",\"prev_hash\":");
    push_json_string(&mut out, prev_hash);
    out.append(",\"timestamp\":");
    push_signed_decimal(&mut out, timestamp);
    out.append(",\"hash\":\"\"}");
    assert(out@ =~= block_text(index as nat, vote_hash@, prev_hash@, timestamp as int));
    out
}

} // verus!
