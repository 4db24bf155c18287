use vote_ledger::chain::{
    compute_block_hash, genesis_sentinel, make_block, verify_block, verify_chain,
};
use vote_ledger::digest::{content_hash, push_decimal, push_json_string, push_signed_decimal};
use vote_ledger::ingest::{vote_hash, Action, Event, Ingestion, Phase};
use vote_ledger::model::{block_canonical_text, Block, LedgerError, Vote};
use vote_ledger::tally::tally;

fn s(x: &str) -> String {
    x.to_string()
}

/// Runs one ingestion against an in-memory block list, answering every
/// request with success, with a fixed clock.
fn ingest(votes: &mut Vec<Vote>, blocks: &mut Vec<Block>, voter: &str, choice: &str, ts: i64, now: i64) -> Result<Block, LedgerError> {
    let mut ing = Ingestion::submit_vote(s(voter), s(choice), ts)?;
    let mut action = ing.pending_action();
    loop {
        let ev = match action {
            Action::InsertVote => {
                votes.push(ing.vote.clone());
                Event::Stored
            }
            Action::ReadTip => Event::Tip(blocks.last().cloned()),
            Action::InsertBlock => {
                blocks.push(ing.block.clone().unwrap());
                Event::Stored
            }
            Action::Complete => return Ok(ing.block.clone().unwrap()),
            Action::Fail(e) => return Err(e),
            Action::Idle => panic!("stalled"),
        };
        action = ing.advance_at(ev, now);
    }
}

#[test]
fn sha256_of_known_texts() {
    assert_eq!(content_hash("abc"), "ba7816bf8f01cfea414140de5dae2223b00361a396177a9cb410ff61f20015ad");
    assert_eq!(content_hash(""), "e3b0c44298fc1c149afbf4c8996fb92427ae41e4649b934ca495991b7852b855");
}

#[test]
fn json_string_is_quoted_and_escaped() {
    let mut out = s("x=");
    push_json_string(&mut out, "a\"b\\c\n");
    assert_eq!(out, "x=\"a\\\"b\\\\c\\n\"");
}

#[test]
fn decimal_rendering() {
    let mut out = String::new();
    push_decimal(&mut out, 0);
    assert_eq!(out, "0");
    let mut out = String::new();
    push_decimal(&mut out, 1234567890);
    assert_eq!(out, "1234567890");
    let mut out = String::new();
    push_decimal(&mut out, u64::MAX);
    assert_eq!(out, "18446744073709551615");
    let mut out = s("t:");
    push_signed_decimal(&mut out, -42);
    assert_eq!(out, "t:-42");
    let mut out = String::new();
    push_signed_decimal(&mut out, i64::MIN);
    assert_eq!(out, "-9223372036854775808");
    let mut out = String::new();
    push_signed_decimal(&mut out, 7);
    assert_eq!(out, "7");
}

#[test]
fn vote_canonical_text_has_fixed_field_order() {
    let v = Vote { voter_id: s("alice"), choice: s("A"), ts: 1700000000 };
    assert_eq!(v.canonical_text(), "{\"voter_id\":\"alice\",\"choice\":\"A\",\"ts\":1700000000}");
    assert_eq!(vote_hash(&v), content_hash("{\"voter_id\":\"alice\",\"choice\":\"A\",\"ts\":1700000000}"));
    assert_eq!(vote_hash(&v).len(), 64);
}

#[test]
fn block_canonical_text_leaves_hash_empty() {
    let t = block_canonical_text(3, "ab", "cd", -5);
    assert_eq!(t, "{\"index\":3,\"vote_hash\":\"ab\",\"prev_hash\":\"cd\",\"timestamp\":-5,\"hash\":\"\"}");
    assert_eq!(compute_block_hash(3, "ab", "cd", -5), content_hash(&t));
}

#[test]
fn genesis_block_has_sentinel_prev_hash() {
    assert_eq!(genesis_sentinel(), "0");
    let b = make_block(&None, &s("vh"), 100).unwrap();
    assert_eq!(b.index, 0);
    assert_eq!(b.prev_hash, "0");
    assert_eq!(b.vote_hash, "vh");
    assert_eq!(b.timestamp, 100);
    assert_eq!(b.hash, compute_block_hash(0, "vh", "0", 100));
    assert_eq!(b.hash.len(), 64);
    assert!(verify_block(&b));
}

#[test]
fn block_follows_tip() {
    let g = make_block(&None, &s("v0"), 1).unwrap();
    let b = make_block(&Some(g.clone()), &s("v1"), 2).unwrap();
    assert_eq!(b.index, 1);
    assert_eq!(b.prev_hash, g.hash);
    assert!(verify_block(&b));
    assert!(verify_chain(&vec![g, b]).is_ok());
}

#[test]
fn tip_without_successor_index_is_refused() {
    let tip = Block { index: u64::MAX, vote_hash: s("v"), prev_hash: s("p"), timestamp: 0, hash: s("h") };
    assert_eq!(make_block(&Some(tip), &s("v"), 1), Err(LedgerError::ChainIntegrity));
}

#[test]
fn tampered_block_fails_verification() {
    let mut b = make_block(&None, &s("vh"), 100).unwrap();
    b.timestamp = 101;
    assert!(!verify_block(&b));
    assert_eq!(verify_chain(&vec![b]), Err(LedgerError::ChainIntegrity));
}

#[test]
fn broken_chains_are_detected() {
    let g = make_block(&None, &s("v0"), 1).unwrap();
    let b1 = make_block(&Some(g.clone()), &s("v1"), 2).unwrap();
    let b2 = make_block(&Some(b1.clone()), &s("v2"), 3).unwrap();
    assert_eq!(verify_chain(&vec![g.clone(), b1.clone(), b2.clone()]), Ok(()));
    assert_eq!(verify_chain(&Vec::new()), Ok(()));
    // a gap
    assert_eq!(verify_chain(&vec![g.clone(), b2.clone()]), Err(LedgerError::ChainIntegrity));
    // a chain that does not start at the genesis block
    assert_eq!(verify_chain(&vec![b1.clone(), b2.clone()]), Err(LedgerError::ChainIntegrity));
    // a genesis block with another sentinel, rehashed
    let mut fake = g.clone();
    fake.prev_hash = s("1");
    fake.hash = compute_block_hash(0, "v0", "1", 1);
    assert_eq!(verify_chain(&vec![fake]), Err(LedgerError::ChainIntegrity));
    // a fork: two blocks on the same tip
    let fork = make_block(&Some(g.clone()), &s("vx"), 2).unwrap();
    assert_eq!(verify_chain(&vec![g, b1, fork]), Err(LedgerError::ChainIntegrity));
}

#[test]
fn empty_choice_is_rejected_before_storage() {
    let mut votes = Vec::new();
    let mut blocks = Vec::new();
    let r = ingest(&mut votes, &mut blocks, "alice", "", 5, 10);
    assert_eq!(r, Err(LedgerError::Validation));
    assert!(votes.is_empty());
    assert!(blocks.is_empty());
    assert!(matches!(Ingestion::submit_vote(s(""), s("A"), 5), Err(LedgerError::Validation)));
}

#[test]
fn ingestion_builds_a_valid_chain() {
    let mut votes = Vec::new();
    let mut blocks = Vec::new();
    for k in 0..100i64 {
        let b = ingest(&mut votes, &mut blocks, &format!("voter{}", k), if k % 3 == 0 { "A" } else { "B" }, k, 1000 + k).unwrap();
        assert_eq!(b.index, k as u64);
    }
    assert_eq!(votes.len(), 100);
    assert_eq!(blocks.len(), 100);
    assert_eq!(blocks[0].prev_hash, "0");
    for (i, b) in blocks.iter().enumerate() {
        assert_eq!(b.index, i as u64);
        assert!(verify_block(b));
        assert_eq!(b.hash, compute_block_hash(b.index, &b.vote_hash, &b.prev_hash, b.timestamp));
        assert_eq!(b.vote_hash, vote_hash(&votes[i]));
        if i > 0 {
            assert_eq!(b.prev_hash, blocks[i - 1].hash);
        }
    }
    assert_eq!(verify_chain(&blocks), Ok(()));
}

#[test]
fn store_failures_are_classified() {
    let mut ing = Ingestion::submit_vote(s("v"), s("A"), 1).unwrap();
    assert_eq!(ing.phase, Phase::VotePending);
    assert_eq!(ing.pending_action(), Action::InsertVote);
    assert_eq!(ing.advance_at(Event::StoreFailed(s("down")), 0), Action::Fail(LedgerError::Store(s("down"))));
    assert_eq!(ing.phase, Phase::Finished);
    assert_eq!(ing.advance_at(Event::Stored, 0), Action::Idle);

    let mut ing = Ingestion::submit_vote(s("v"), s("A"), 1).unwrap();
    assert_eq!(ing.advance_at(Event::Stored, 0), Action::ReadTip);
    assert_eq!(ing.vote_hash, vote_hash(&ing.vote));
    assert_eq!(ing.advance_at(Event::StoreFailed(s("t")), 0), Action::Fail(LedgerError::PartialIngestion(s("t"))));

    let mut ing = Ingestion::submit_vote(s("v"), s("A"), 1).unwrap();
    assert_eq!(ing.advance_at(Event::Stored, 0), Action::ReadTip);
    assert_eq!(ing.advance_at(Event::Tip(None), 9), Action::InsertBlock);
    assert_eq!(ing.block.as_ref().unwrap().timestamp, 9);
    assert_eq!(ing.advance_at(Event::StoreFailed(s("b")), 0), Action::Fail(LedgerError::PartialIngestion(s("b"))));
    assert_eq!(LedgerError::PartialIngestion(s("b")).message(), "b");
    assert_eq!(LedgerError::Store(s("x")).message(), "x");
}

#[test]
fn tampered_tip_is_refused() {
    let mut tip = make_block(&None, &s("v0"), 1).unwrap();
    tip.vote_hash = s("other");
    let mut ing = Ingestion::submit_vote(s("v"), s("A"), 1).unwrap();
    ing.advance_at(Event::Stored, 0);
    assert_eq!(ing.advance_at(Event::Tip(Some(tip)), 5), Action::Fail(LedgerError::ChainIntegrity));
    assert!(ing.block.is_none());
}

#[test]
fn unexpected_events_change_nothing() {
    let mut ing = Ingestion::submit_vote(s("v"), s("A"), 1).unwrap();
    assert_eq!(ing.advance_at(Event::Tip(None), 0), Action::Idle);
    assert_eq!(ing.phase, Phase::VotePending);
    ing.advance_at(Event::Stored, 0);
    assert_eq!(ing.advance_at(Event::Stored, 0), Action::Idle);
    assert_eq!(ing.phase, Phase::TipPending);
}

#[test]
fn advance_stamps_block_with_clock() {
    let mut ing = Ingestion::submit_vote(s("v"), s("A"), 1).unwrap();
    ing.advance(Event::Stored);
    assert_eq!(ing.advance(Event::Tip(None)), Action::InsertBlock);
    let b = ing.block.clone().unwrap();
    assert!(b.timestamp > 1_600_000_000);
    assert!(verify_block(&b));
    assert_eq!(ing.advance(Event::Stored), Action::Complete);
}

#[test]
fn tally_counts_each_choice() {
    let r = tally(&vec![s("A"), s("A"), s("B")]);
    assert_eq!(r, vec![(s("A"), 2), (s("B"), 1)]);
}

#[test]
fn tally_of_nothing_is_empty() {
    assert!(tally(&Vec::new()).is_empty());
}

#[test]
fn tally_after_ingestion() {
    let mut votes = Vec::new();
    let mut blocks = Vec::new();
    for (v, c) in [("1", "A"), ("2", "A"), ("3", "B")] {
        ingest(&mut votes, &mut blocks, v, c, 0, 0).unwrap();
    }
    let choices: Vec<String> = votes.iter().map(|v| v.choice.clone()).collect();
    let mut r = tally(&choices);
    r.sort();
    assert_eq!(r, vec![(s("A"), 2), (s("B"), 1)]);
}
