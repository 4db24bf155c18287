//! Accepting a vote, as a state machine driven by the store's answers.
//!
//! The caller performs each requested action against the store (insert the
//! vote, read the chain tip, insert the block) and feeds the outcome back as
//! an event. Reading the tip and inserting the block must not interleave with
//! another ingestion's: the caller holds one append lock from `ReadTip` until
//! the block insert has been answered.
use crate::chain::{
    built_on, chain_valid, hash_intact, lemma_append_keeps_chain_valid, make_block, tip_of,
    verify_block,
};
use crate::digest::{content_hash, content_hash_of};
use crate::model::{vote_text, Block, LedgerError, Vote};
use vstd::prelude::*;

verus! {

/// Where an ingestion stands: which store answer it waits for.
#[derive(Debug, Clone, Copy, PartialEq, Eq, Structural)]
pub enum Phase {
    /// Waiting for the vote insert.
    VotePending,
    /// Waiting for the chain tip.
    TipPending,
    /// Waiting for the block insert.
    BlockPending,
    /// Done, with success or failure.
    Finished,
}

/// The store's answer to the last requested action.
#[derive(Debug)]
pub enum Event {
    /// The insert succeeded.
    Stored,
    /// The store failed with this message.
    StoreFailed(String),
    /// The block with the highest index, or none on an empty chain.
    Tip(Option<Block>),
}

/// What the caller must do next.
#[derive(Debug, PartialEq, Eq)]
pub enum Action {
    /// Insert `vote` into the vote collection.
    InsertVote,
    /// Read the block with the highest index.
    ReadTip,
    /// Insert `block` into the block collection.
    InsertBlock,
    /// The vote and its block are stored.
    Complete,
    /// The ingestion failed.
    Fail(LedgerError),
    /// The event was not the one awaited; nothing changed.
    Idle,
}

/// One vote on its way into the ledger.
pub struct Ingestion {
    pub vote: Vote,
    /// The vote's content hash, once the vote is stored.
    pub vote_hash: String,
    /// The new block, once the tip is known.
    pub block: Option<Block>,
    pub phase: Phase,
}

/// The hash of a vote: the content hash of its canonical text.
pub open spec fn vote_hash_of(v: Vote) -> Seq<char> {
    content_hash_of(vote_text(v.voter_id@, v.choice@, v.ts as int))
}

/// A vote is well-formed when it names a voter and a choice.
pub open spec fn vote_well_formed(voter_id: Seq<char>, choice: Seq<char>) -> bool {
    voter_id.len() > 0 && choice.len() > 0
}

/// The action awaited in each phase.
pub open spec fn pending_action_of(p: Phase) -> Action {
    match p {
        Phase::VotePending => Action::InsertVote,
        Phase::TipPending => Action::ReadTip,
        Phase::BlockPending => Action::InsertBlock,
        Phase::Finished => Action::Idle,
    }
}

/// One step of an ingestion: from `old`, on event `ev` at time `now`, it is
/// `new` and asks for `a`.
pub open spec fn advanced(old: Ingestion, ev: Event, now: int, new: Ingestion, a: Action) -> bool {
    &&& new.vote == old.vote
    &&& match old.phase {
        Phase::VotePending => match ev {
            Event::Stored => {
                &&& new.phase == Phase::TipPending
                &&& a == Action::ReadTip
                &&& new.vote_hash@ == vote_hash_of(old.vote)
                &&& new.block == old.block
            },
            Event::StoreFailed(m) => {
                &&& new.phase == Phase::Finished
                &&& a == Action::Fail(LedgerError::Store(m))
                &&& new.vote_hash == old.vote_hash
                &&& new.block == old.block
            },
            Event::Tip(_) => new == old && a == Action::Idle,
        },
        Phase::TipPending => match ev {
            Event::Tip(tip) => {
                &&& new.vote_hash == old.vote_hash
                &&& if tip is Some && (!hash_intact(tip->0) || tip->0.index == u64::MAX) {
                    &&& new.phase == Phase::Finished
                    &&& a == Action::Fail(LedgerError::ChainIntegrity)
                    &&& new.block == old.block
                } else {
                    &&& new.phase == Phase::BlockPending
                    &&& a == Action::InsertBlock
                    &&& new.block is Some
                    &&& built_on(tip, old.vote_hash@, now, new.block->0)
                }
            },
            Event::StoreFailed(m) => {
                &&& new.phase == Phase::Finished
                &&& a == Action::Fail(LedgerError::PartialIngestion(m))
                &&& new.vote_hash == old.vote_hash
                &&& new.block == old.block
            },
            Event::Stored => new == old && a == Action::Idle,
        },
        Phase::BlockPending => match ev {
            Event::Stored => {
                &&& new.phase == Phase::Finished
                &&& a == Action::Complete
                &&& new.vote_hash == old.vote_hash
                &&& new.block == old.block
            },
            Event::StoreFailed(m) => {
                &&& new.phase == Phase::Finished
                &&& a == Action::Fail(LedgerError::PartialIngestion(m))
                &&& new.vote_hash == old.vote_hash
                &&& new.block == old.block
            },
            Event::Tip(_) => new == old && a == Action::Idle,
        },
        Phase::Finished => new == old && a == Action::Idle,
    }
}

/// An ingestion that reads the tip of a well-formed chain and is asked to
/// insert its block extends the chain to a well-formed one: the new block
/// takes the next index, links to the tip, and carries its recomputed hash.
pub proof fn lemma_ingestion_extends_chain(
    s: Seq<Block>,
    old: Ingestion,
    now: int,
    new: Ingestion,
    a: Action,
)
    requires
        chain_valid(s),
        old.phase == Phase::TipPending,
        advanced(old, Event::Tip(tip_of(s)), now, new, a),
        a == Action::InsertBlock,
    ensures
        new.block is Some,
        new.block->0.vote_hash@ == old.vote_hash@,
        chain_valid(s.push(new.block->0)),
{
    lemma_append_keeps_chain_valid(s, new.block->0);
}

/// Relies on chrono's `Utc::now`, read as whole seconds since the Unix epoch
/// by `DateTime::timestamp`. Nothing is promised of the value.
#[verifier::external_body]
fn now_seconds() -> (r: i64) {
    chrono::Utc::now().timestamp()
}

/// The content hash of a vote's canonical text.
pub fn vote_hash(v: &Vote) -> (r: String)
    ensures
        r@ == vote_hash_of(*v),
        r@.len() == 64,
{
    let text = v.canonical_text();
    content_hash(text.as_str())
}

impl Ingestion {
    /// Starts accepting a vote. A vote without a voter or without a choice
    /// is refused before anything is stored; otherwise the first action is
    /// `InsertVote`.
    pub fn submit_vote(voter_id: String, choice: String, ts: i64) -> (r: Result<
        Ingestion,
        LedgerError,
    >)
        ensures
            r is Ok <==> vote_well_formed(voter_id@, choice@),
            r is Err ==> r == Err::<Ingestion, LedgerError>(LedgerError::Validation),
            r is Ok ==> {
                &&& r->Ok_0.vote == (Vote { voter_id, choice, ts })
                &&& r->Ok_0.phase == Phase::VotePending
                &&& r->Ok_0.block is None
                &&& pending_action_of(r->Ok_0.phase) == Action::InsertVote
            },
    {
        if voter_id.as_str().is_empty() || choice.as_str().is_empty() {
            return Err(LedgerError::Validation);
        }
        Ok(Ingestion {
            vote: Vote { voter_id, choice, ts },
            vote_hash: String::new(),
            block: None,
            phase: Phase::VotePending,
        })
    }

    /// The action whose answer this ingestion waits for.
    pub fn pending_action(&self) -> (a: Action)
        ensures
            a == pending_action_of(self.phase),
    {
        match self.phase {
            Phase::VotePending => Action::InsertVote,
            Phase::TipPending => Action::ReadTip,
            Phase::BlockPending => Action::InsertBlock,
            Phase::Finished => Action::Idle,
        }
    }

    /// Takes the store's answer, with `now` as the creation time of a block
    /// built on this step, and says what to do next.
    pub fn advance_at(&mut self, ev: Event, now: i64) -> (a: Action)
        ensures
            advanced(*old(self), ev, now as int, *final(self), a),
    {
        match self.phase {
            Phase::VotePending => match ev {
                Event::Stored => {
                    self.vote_hash = vote_hash(&self.vote);
                    self.phase = Phase::TipPending;
                    Action::ReadTip
                },
                Event::StoreFailed(m) => {
                    self.phase = Phase::Finished;
                    Action::Fail(LedgerError::Store(m))
                },
                Event::Tip(_) => Action::Idle,
            },
            Phase::TipPending => match ev {
                Event::Tip(tip) => {
                    if let Some(t) = &tip {
                        if !verify_block(t) {
                            self.phase = Phase::Finished;
                            return Action::Fail(LedgerError::ChainIntegrity);
                        }
                    }
                    match make_block(&tip, &self.vote_hash, now) {
                        Ok(b) => {
                            self.block = Some(b);
                            self.phase = Phase::BlockPending;
                            Action::InsertBlock
                        },
                        Err(e) => {
                            self.phase = Phase::Finished;
                            Action::Fail(e)
                        },
                    }
                },
                Event::StoreFailed(m) => {
                    self.phase = Phase::Finished;
                    Action::Fail(LedgerError::PartialIngestion(m))
                },
                Event::Stored => Action::Idle,
            },
            Phase::BlockPending => match ev {
                Event::Stored => {
                    self.phase = Phase::Finished;
                    Action::Complete
                },
                Event::StoreFailed(m) => {
                    self.phase = Phase::Finished;
                    Action::Fail(LedgerError::PartialIngestion(m))
                },
                Event::Tip(_) => Action::Idle,
            },
            Phase::Finished => Action::Idle,
        }
    }

    /// Takes the store's answer and says what to do next; a block built on
    /// this step is stamped with the current time, whatever the clock says.
    pub fn advance(&mut self, ev: Event) -> (a: Action)
        ensures
            exists|now: i64| advanced(*old(self), ev, now as int, *final(self), a),
    {
        let now = now_seconds();
        self.advance_at(ev, now)
    }
}

} // verus!
