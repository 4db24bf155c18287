//! The chaining rules: how a new block follows the chain tip, how a block's
//! hash is derived, and what a well-formed chain is.
use crate::digest::{content_hash, content_hash_of};
use crate::model::{block_canonical_text, block_text, Block, LedgerError};
use vstd::prelude::*;

verus! {

/// The `prev_hash` of the first block.
pub open spec fn genesis_prev_hash() -> Seq<char> {
    seq!['0']
}

/// The hash a block must carry: the content hash of its other fields.
pub open spec fn block_hash_of(b: Block) -> Seq<char> {
    content_hash_of(block_text(b.index as nat, b.vote_hash@, b.prev_hash@, b.timestamp as int))
}

/// The block's stored hash is the one recomputed from its other fields.
pub open spec fn hash_intact(b: Block) -> bool {
    b.hash@ == block_hash_of(b)
}

/// The index that follows the tip (`0` on an empty chain).
pub open spec fn next_index(tip: Option<Block>) -> int {
    match tip {
        Some(t) => t.index + 1,
        None => 0,
    }
}

/// The `prev_hash` that follows the tip (the sentinel on an empty chain).
pub open spec fn next_prev_hash(tip: Option<Block>) -> Seq<char> {
    match tip {
        Some(t) => t.hash@,
        None => genesis_prev_hash(),
    }
}

/// `b` links onto `tip`: it takes the next index and the tip's hash.
pub open spec fn follows(tip: Option<Block>, b: Block) -> bool {
    &&& b.index == next_index(tip)
    &&& b.prev_hash@ == next_prev_hash(tip)
}

/// `b` is the block built on `tip` for a vote hash at a time.
pub open spec fn built_on(tip: Option<Block>, vote_hash: Seq<char>, timestamp: int, b: Block) -> bool {
    &&& follows(tip, b)
    &&& b.vote_hash@ == vote_hash
    &&& b.timestamp == timestamp
    &&& hash_intact(b)
}

/// The tip of a sequence of blocks: its last block, if any.
pub open spec fn tip_of(s: Seq<Block>) -> Option<Block> {
    if s.len() == 0 {
        None
    } else {
        Some(s.last())
    }
}

/// A well-formed chain: block `i` has index `i`, the first block carries the
/// sentinel `prev_hash`, each later one the hash of the block before it, and
/// every block's hash is the one recomputed from its other fields.
pub open spec fn chain_valid(s: Seq<Block>) -> bool {
    forall|i: int|
        0 <= i < s.len() ==> {
            &&& #[trigger] s[i].index == i
            &&& hash_intact(s[i])
            &&& i == 0 ==> s[i].prev_hash@ == genesis_prev_hash()
            &&& i > 0 ==> s[i].prev_hash@ == s[i - 1].hash@
        }
}

/// The sentinel `prev_hash` of the first block.
pub fn genesis_sentinel() -> (r: String)
    ensures
        r@ == genesis_prev_hash(),
{
    let mut p = String::new();
    proof {
        reveal_strlit("0");
    }
    p.append("0");
    assert(p@ =~= genesis_prev_hash());
    p
}

/// The hash a block with these fields must carry.
pub fn compute_block_hash(index: u64, vote_hash: &str, prev_hash: &str, timestamp: i64) -> (r:
    String)
    ensures
        r@ == content_hash_of(block_text(index as nat, vote_hash@, prev_hash@, timestamp as int)),
        r@.len() == 64,
{
    let text = block_canonical_text(index, vote_hash, prev_hash, timestamp);
    content_hash(text.as_str())
}

/// Builds the block that follows `tip` for a vote hash and a creation time.
/// The only failure is a tip whose index has no successor.
pub fn make_block(tip: &Option<Block>, vote_hash: &String, timestamp: i64) -> (r: Result<
    Block,
    LedgerError,
>)
    ensures
        r is Err <==> (tip is Some && tip->0.index == u64::MAX),
        r is Err ==> r == Err::<Block, LedgerError>(LedgerError::ChainIntegrity),
        r is Ok ==> built_on(*tip, vote_hash@, timestamp as int, r->Ok_0),
{
    let (index, prev_hash) = match tip {
        Some(t) => {
            if t.index == u64::MAX {
                return Err(LedgerError::ChainIntegrity);
            }
            (t.index + 1, t.hash.clone())
        },
        None => (0u64, genesis_sentinel()),
    };
    let hash = compute_block_hash(index, vote_hash.as_str(), prev_hash.as_str(), timestamp);
    Ok(Block { index, vote_hash: vote_hash.clone(), prev_hash, timestamp, hash })
}

/// Recomputes a block's hash from its other fields and compares it with the
/// stored one.
pub fn verify_block(b: &Block) -> (r: bool)
    ensures
        r == hash_intact(*b),
{
    let h = compute_block_hash(b.index, b.vote_hash.as_str(), b.prev_hash.as_str(), b.timestamp);
    h == b.hash
}

/// Checks a sequence of stored blocks, in index order, for contiguous
/// indices from zero, correct links and intact hashes.
pub fn verify_chain(blocks: &Vec<Block>) -> (r: Result<(), LedgerError>)
    ensures
        r is Ok <==> chain_valid(blocks@),
        r is Err ==> r == Err::<(), LedgerError>(LedgerError::ChainIntegrity),
{
    let mut i: usize = 0;
    while i < blocks.len()
        invariant
            i <= blocks@.len(),
            chain_valid(blocks@.take(i as int)),
        decreases blocks@.len() - i,
    {
        let b = &blocks[i];
        let linked = if i == 0 {
            b.prev_hash == genesis_sentinel()
        } else {
            b.prev_hash == blocks[i - 1].hash
        };
        if b.index != i as u64 || !linked || !verify_block(b) {
            proof {
                assert(blocks@[i as int] == *b);
                if chain_valid(blocks@) {
                    assert(blocks@[i as int].index == i);
                }
            }
            return Err(LedgerError::ChainIntegrity);
        }
        proof {
            let next = blocks@.take(i + 1);
            let prev = blocks@.take(i as int);
            assert(next[i as int] == *b);
            assert forall|k: int| 0 <= k < next.len() implies {
                &&& #[trigger] next[k].index == k
                &&& hash_intact(next[k])
                &&& k == 0 ==> next[k].prev_hash@ == genesis_prev_hash()
                &&& k > 0 ==> next[k].prev_hash@ == next[k - 1].hash@
            } by {
                if k < i {
                    assert(next[k] == prev[k]);
                    assert(prev[k].index == k);
                    if k > 0 {
                        assert(next[k - 1] == prev[k - 1]);
                    }
                } else if k > 0 {
                    assert(next[k - 1] == blocks@[k - 1]);
                }
            }
        }
        i = i + 1;
    }
    assert(blocks@.take(i as int) =~= blocks@);
    Ok(())
}

/// The empty ledger is a well-formed chain.
pub proof fn lemma_empty_chain_valid()
    ensures
        chain_valid(Seq::<Block>::empty()),
{
}

/// Appending a block that follows the tip and carries its recomputed hash
/// keeps a chain well-formed: links, indices and hashes hold for the whole
/// stored sequence after every successful append.
pub proof fn lemma_append_keeps_chain_valid(s: Seq<Block>, b: Block)
    requires
        chain_valid(s),
        follows(tip_of(s), b),
        hash_intact(b),
    ensures
        chain_valid(s.push(b)),
        tip_of(s.push(b)) == Some(b),
{
    let t = s.push(b);
    assert forall|k: int| 0 <= k < t.len() implies {
        &&& #[trigger] t[k].index == k
        &&& hash_intact(t[k])
        &&& k == 0 ==> t[k].prev_hash@ == genesis_prev_hash()
        &&& k > 0 ==> t[k].prev_hash@ == t[k - 1].hash@
    } by {
        if k < s.len() {
            assert(t[k] == s[k]);
            assert(s[k].index == k);
            if k > 0 {
                assert(t[k - 1] == s[k - 1]);
            }
        } else if s.len() > 0 {
            assert(s[s.len() - 1].index == s.len() - 1);
            assert(t[k - 1] == s.last());
        }
    }
}

/// A block built on any tip, for any vote hash and time, verifies: its
/// stored hash is the one recomputed from its other fields.
pub proof fn lemma_built_block_verifies(
    tip: Option<Block>,
    vote_hash: Seq<char>,
    timestamp: int,
    b: Block,
)
    requires
        built_on(tip, vote_hash, timestamp, b),
    ensures
        b.hash@ == content_hash_of(
            block_text(b.index as nat, b.vote_hash@, b.prev_hash@, b.timestamp as int),
        ),
{
}

/// In a well-formed chain of `n` blocks the indices are exactly
/// `0, 1, ..., n - 1`: none is missing and none repeats, and the next block
/// takes index `n`.
pub proof fn lemma_indices_contiguous(s: Seq<Block>)
    requires
        chain_valid(s),
    ensures
        forall|i: int| 0 <= i < s.len() ==> #[trigger] s[i].index == i,
        forall|i: int, j: int|
            0 <= i < s.len() && 0 <= j < s.len() && i != j ==> #[trigger] s[i].index
                != #[trigger] s[j].index,
        next_index(tip_of(s)) == s.len(),
{
    if s.len() > 0 {
        assert(s[s.len() - 1].index == s.len() - 1);
    }
}

/// In a well-formed chain every block after the first carries the hash of
/// the block before it.
pub proof fn lemma_chain_linked(s: Seq<Block>)
    requires
        chain_valid(s),
    ensures
        forall|i: int| 0 < i < s.len() ==> #[trigger] s[i].prev_hash@ == s[i - 1].hash@,
{
    assert forall|i: int| 0 < i < s.len() implies #[trigger] s[i].prev_hash@ == s[i - 1].hash@ by {
        assert(s[i].index == i);
    }
}

/// The first block of a well-formed chain has index 0 and the sentinel
/// `prev_hash` `"0"`; so does every block built on an empty chain.
pub proof fn lemma_genesis_sentinel(s: Seq<Block>, b: Block)
    requires
        chain_valid(s),
        follows(None, b),
    ensures
        s.len() > 0 ==> s[0].index == 0 && s[0].prev_hash@ == seq!['0'],
        b.index == 0 && b.prev_hash@ == seq!['0'],
{
    if s.len() > 0 {
        assert(s[0].index == 0);
    }
}

} // verus!
