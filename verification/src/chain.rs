//! The chain: appending, mining and validation.

use crate::block::{sealed_block, Block, BlockView};
use crate::transaction::{transaction_views, Transaction, TransactionView};
use vstd::prelude::*;
use vstd::string::*;

verus! {

/// An ordered sequence of blocks that starts with a genesis block. Appending
/// checks nothing: whether the chain is intact is asked with `is_chain_valid`.
pub struct Blockchain {
    chain: Vec<Block>,
}

/// The blocks of a sequence, each as numbers and texts.
pub open spec fn block_views(blocks: Seq<Block>) -> Seq<BlockView> {
    blocks.map_values(|b: Block| b@)
}

/// The block at position `i` is intact: it is sealed, and unless it is the
/// first it stores the hash that the block before it stores.
pub open spec fn block_intact(blocks: Seq<BlockView>, i: int) -> bool {
    &&& i > 0 ==> blocks[i].previous_hash == blocks[i - 1].hash
    &&& blocks[i].is_sealed()
}

/// Every block of the sequence is intact.
pub open spec fn chain_intact(blocks: Seq<BlockView>) -> bool {
    forall|i: int| 0 <= i < blocks.len() ==> #[trigger] block_intact(blocks, i)
}

/// The proof-of-work condition: the hash begins with two zero digits.
pub open spec fn meets_difficulty(hash: Seq<char>) -> bool {
    hash.len() >= 2 && hash[0] == '0' && hash[1] == '0'
}

/// The genesis block: position 0, time 0, no transactions, `"0"` for the
/// previous hash, nonce 0, sealed.
pub open spec fn genesis() -> BlockView {
    sealed_block(0, 0, Seq::empty(), "0"@, 0)
}

/// The sealed block that a search on `blocks` tries with `nonce`: it stands
/// one past the last block and links to the digest of the last block's
/// content.
pub open spec fn candidate(
    blocks: Seq<BlockView>,
    timestamp: nat,
    transactions: Seq<TransactionView>,
    nonce: nat,
) -> BlockView {
    sealed_block(blocks.len(), timestamp, transactions, blocks.last().digest(), nonce)
}

/// No nonce below `bound` gives a candidate whose hash meets the difficulty.
pub open spec fn no_nonce_below(
    blocks: Seq<BlockView>,
    timestamp: nat,
    transactions: Seq<TransactionView>,
    bound: nat,
) -> bool {
    forall|n: nat|
        n < bound ==> !meets_difficulty(
            (#[trigger] candidate(blocks, timestamp, transactions, n)).hash,
        )
}

/// Whether `hash` begins with two zero digits.
pub fn has_two_leading_zeros(hash: &str) -> (yes: bool)
    ensures
        yes == meets_difficulty(hash@),
{
    hash.unicode_len() >= 2 && hash.get_char(0) == '0' && hash.get_char(1) == '0'
}

/// The time in whole seconds as an unsigned 64-bit number; a time before the
/// epoch wraps around, so that one second before it is the largest value.
pub fn seconds_unsigned(seconds: i64) -> (timestamp: u64)
    ensures
        seconds >= 0 ==> timestamp == seconds,
        seconds < 0 ==> timestamp == seconds + 0x1_0000_0000_0000_0000,
{
    if seconds >= 0 {
        seconds as u64
    } else {
        u64::MAX - ((-(seconds + 1)) as u64)
    }
}

/// `chrono::Utc::now().timestamp()`: the system clock's time in whole seconds
/// since the epoch. Nothing is claimed of the value. The call panics where the
/// clock stands before the epoch.
#[verifier::external_body]
fn unix_seconds_now() -> i64 {
    chrono::Utc::now().timestamp()
}

impl View for Blockchain {
    type V = Seq<BlockView>;

    closed spec fn view(&self) -> Seq<BlockView> {
        block_views(self.chain@)
    }
}

impl Blockchain {
    /// A chain holds at least one block. `new` makes such a chain and
    /// `add_block` keeps it so.
    pub open spec fn wf(&self) -> bool {
        self@.len() >= 1
    }

    /// Every block is sealed and stores the hash of the block before it.
    pub open spec fn is_intact(&self) -> bool {
        chain_intact(self@)
    }

    /// A chain that holds the genesis block and nothing else.
    pub fn new() -> (chain: Blockchain)
        ensures
            chain.wf(),
            chain@ == seq![genesis()],
            chain.is_intact(),
    {
        let first = Block::new(0, 0, Vec::new(), String::from_str("0"), 0);
        let mut blocks: Vec<Block> = Vec::new();
        blocks.push(first);
        let chain = Blockchain { chain: blocks };
        proof {
            assert(transaction_views(Seq::<Transaction>::empty()) =~= Seq::empty());
            assert(chain@ =~= seq![genesis()]);
            assert(block_intact(chain@, 0));
        }
        chain
    }

    /// The number of blocks.
    pub fn len(&self) -> (n: usize)
        ensures
            n == self@.len(),
    {
        self.chain.len()
    }

    /// The blocks, first to last.
    pub fn blocks(&self) -> (blocks: &Vec<Block>)
        ensures
            block_views(blocks@) == self@,
    {
        &self.chain
    }

    /// Puts `block` at the end, unchecked.
    pub fn add_block(&mut self, block: Block)
        ensures
            final(self)@ == old(self)@.push(block@),
            final(self).wf(),
    {
        self.chain.push(block);
        assert(self@ =~= old(self)@.push(block@));
    }

    /// Whether every block is sealed and stores the hash of the block before it.
    pub fn is_chain_valid(&self) -> (valid: bool)
        ensures
            valid == self.is_intact(),
    {
        let mut i: usize = 0;
        while i < self.chain.len()
            invariant
                i <= self.chain@.len(),
                forall|j: int| 0 <= j < i ==> #[trigger] block_intact(self@, j),
            decreases self.chain@.len() - i,
        {
            let block = &self.chain[i];
            if i > 0 && block.previous_hash != self.chain[i - 1].hash {
                assert(!block_intact(self@, i as int));
                return false;
            }
            let fresh = block.hash_block();
            if fresh != block.hash {
                assert(!block_intact(self@, i as int));
                return false;
            }
            assert(block_intact(self@, i as int));
            i += 1;
        }
        true
    }

    /// The digest of the last block's content, computed afresh.
    pub fn hash_last_block(&self) -> (hash: String)
        requires
            self.wf(),
        ensures
            hash@ == self@.last().digest(),
    {
        self.chain[self.chain.len() - 1].hash_block()
    }

    /// Searches the nonces from 0 upwards for a block that would follow the
    /// last one at the given time and whose hash meets the difficulty. The
    /// candidate with the least such nonce is returned, not appended; `None`
    /// says that no nonce will do.
    pub fn mine_block_at(&self, timestamp: u64, transactions: Vec<Transaction>) -> (mined: Option<
        Block,
    >)
        requires
            self.wf(),
            self@.len() <= u32::MAX,
        ensures
            match mined {
                Some(block) => {
                    &&& block.transactions == transactions
                    &&& block@ == candidate(
                        self@,
                        timestamp as nat,
                        transaction_views(transactions@),
                        block.nonce as nat,
                    )
                    &&& meets_difficulty(block@.hash)
                    &&& no_nonce_below(
                        self@,
                        timestamp as nat,
                        transaction_views(transactions@),
                        block.nonce as nat,
                    )
                },
                None => no_nonce_below(
                    self@,
                    timestamp as nat,
                    transaction_views(transactions@),
                    0x1_0000_0000,
                ),
            },
    {
        let index = self.chain.len() as u32;
        let previous_hash = self.hash_last_block();
        let mut nonce: u32 = 0;
        let mut block = Block::new(index, timestamp, transactions, previous_hash, nonce);
        loop
            invariant
                block.transactions == transactions,
                block.nonce == nonce,
                block@ == candidate(
                    self@,
                    timestamp as nat,
                    transaction_views(transactions@),
                    nonce as nat,
                ),
                no_nonce_below(
                    self@,
                    timestamp as nat,
                    transaction_views(transactions@),
                    nonce as nat,
                ),
            decreases u32::MAX - nonce,
        {
            if has_two_leading_zeros(block.hash.as_str()) {
                return Some(block);
            }
            if nonce == u32::MAX {
                return None;
            }
            nonce += 1;
            block.nonce = nonce;
            block.hash = block.hash_block();
        }
    }

    /// Mines at the system clock's present time: `mine_block_at` with that
    /// time. The result is described for whatever time the clock gave.
    pub fn mine_block(&self, transactions: Vec<Transaction>) -> (mined: Option<Block>)
        requires
            self.wf(),
            self@.len() <= u32::MAX,
        ensures
            match mined {
                Some(block) => {
                    &&& block.transactions == transactions
                    &&& block@ == candidate(
                        self@,
                        block.timestamp as nat,
                        transaction_views(transactions@),
                        block.nonce as nat,
                    )
                    &&& meets_difficulty(block@.hash)
                    &&& no_nonce_below(
                        self@,
                        block.timestamp as nat,
                        transaction_views(transactions@),
                        block.nonce as nat,
                    )
                },
                None => exists|timestamp: u64| #[trigger]
                    no_nonce_below(
                        self@,
                        timestamp as nat,
                        transaction_views(transactions@),
                        0x1_0000_0000,
                    ),
            },
    {
        let timestamp = seconds_unsigned(unix_seconds_now());
        self.mine_block_at(timestamp, transactions)
    }
}

/// A chain of the genesis block alone is intact.
pub proof fn lemma_genesis_intact()
    ensures
        genesis().previous_hash == "0"@,
        genesis().is_sealed(),
        chain_intact(seq![genesis()]),
{
    assert(block_intact(seq![genesis()], 0));
}

/// Appending keeps a chain intact exactly when the chain was intact and the
/// new block is sealed and stores the hash that the last block stores. So a
/// block with any other previous hash breaks the chain.
pub proof fn lemma_append_intact(blocks: Seq<BlockView>, block: BlockView)
    requires
        blocks.len() >= 1,
    ensures
        chain_intact(blocks.push(block)) == (chain_intact(blocks) && block.is_sealed()
            && block.previous_hash == blocks.last().hash),
{
    let longer = blocks.push(block);
    let n = blocks.len() as int;
    if chain_intact(longer) {
        assert(block_intact(longer, n));
        assert forall|i: int| 0 <= i < blocks.len() implies #[trigger] block_intact(blocks, i) by {
            assert(block_intact(longer, i));
        }
    }
    if chain_intact(blocks) && block.is_sealed() && block.previous_hash == blocks.last().hash {
        assert forall|i: int| 0 <= i < longer.len() implies #[trigger] block_intact(longer, i) by {
            if i < n {
                assert(block_intact(blocks, i));
            }
        }
    }
}

/// Changing a block's content without resealing it is detected: if the block
/// at position `i` of an intact chain is replaced by one that keeps the stored
/// hash while its content has another digest, the chain is no longer intact.
pub proof fn lemma_tamper_detected(blocks: Seq<BlockView>, i: int, altered: BlockView)
    requires
        chain_intact(blocks),
        0 <= i < blocks.len(),
        altered.hash == blocks[i].hash,
        altered.digest() != blocks[i].digest(),
    ensures
        !chain_intact(blocks.update(i, altered)),
{
    assert(block_intact(blocks, i));
    assert(!block_intact(blocks.update(i, altered), i));
}

/// A mined block extends an intact chain: the candidate for any nonce, put at
/// the end of an intact chain, leaves the chain intact.
pub proof fn lemma_candidate_extends(
    blocks: Seq<BlockView>,
    timestamp: nat,
    transactions: Seq<TransactionView>,
    nonce: nat,
)
    requires
        blocks.len() >= 1,
        chain_intact(blocks),
    ensures
        chain_intact(blocks.push(candidate(blocks, timestamp, transactions, nonce))),
{
    let block = candidate(blocks, timestamp, transactions, nonce);
    assert(block_intact(blocks, blocks.len() - 1));
    lemma_append_intact(blocks, block);
}

} // verus!
