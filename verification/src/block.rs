//! Blocks and their digests.

use crate::digest::{sha256, sha256_digest};
use crate::text::{append_decimal, decimal_text, hex_text, to_hex};
use crate::transaction::{
    append_list_text, list_text, transaction_views, Transaction, TransactionView,
};
use vstd::prelude::*;
use vstd::string::*;
use vstd::utf8::encode_utf8;

verus! {

/// One entry of the ledger.
#[derive(Debug)]
pub struct Block {
    /// Position in the chain; the genesis block has 0.
    pub index: u32,
    /// Seconds since the epoch.
    pub timestamp: u64,
    pub transactions: Vec<Transaction>,
    /// The stored hash of the block before this one, or `"0"` for a genesis block.
    pub previous_hash: String,
    /// The digest of the other five fields, as it was when the block was sealed.
    pub hash: String,
    /// The counter that the proof-of-work search varies.
    pub nonce: u32,
}

/// A block as numbers and texts.
pub ghost struct BlockView {
    pub index: nat,
    pub timestamp: nat,
    pub transactions: Seq<TransactionView>,
    pub previous_hash: Seq<char>,
    pub hash: Seq<char>,
    pub nonce: nat,
}

impl View for Block {
    type V = BlockView;

    open spec fn view(&self) -> BlockView {
        BlockView {
            index: self.index as nat,
            timestamp: self.timestamp as nat,
            transactions: transaction_views(self.transactions@),
            previous_hash: self.previous_hash@,
            hash: self.hash@,
            nonce: self.nonce as nat,
        }
    }
}

/// The text that is hashed: index, timestamp, transaction list, previous hash
/// and nonce, one after the other with nothing between them.
pub open spec fn preimage(
    index: nat,
    timestamp: nat,
    transactions: Seq<TransactionView>,
    previous_hash: Seq<char>,
    nonce: nat,
) -> Seq<char> {
    decimal_text(index) + decimal_text(timestamp) + list_text(transactions) + previous_hash
        + decimal_text(nonce)
}

/// The digest of a block's content: the SHA-256 digest of the UTF-8 bytes of
/// the preimage, in lowercase hexadecimal.
pub open spec fn block_digest(
    index: nat,
    timestamp: nat,
    transactions: Seq<TransactionView>,
    previous_hash: Seq<char>,
    nonce: nat,
) -> Seq<char> {
    hex_text(
        sha256_digest(encode_utf8(preimage(index, timestamp, transactions, previous_hash, nonce))),
    )
}

/// The block with the given content whose stored hash is the digest of that
/// content.
pub open spec fn sealed_block(
    index: nat,
    timestamp: nat,
    transactions: Seq<TransactionView>,
    previous_hash: Seq<char>,
    nonce: nat,
) -> BlockView {
    BlockView {
        index,
        timestamp,
        transactions,
        previous_hash,
        hash: block_digest(index, timestamp, transactions, previous_hash, nonce),
        nonce,
    }
}

impl BlockView {
    /// The digest of this block's content, whatever hash it stores.
    pub open spec fn digest(self) -> Seq<char> {
        block_digest(
            self.index,
            self.timestamp,
            self.transactions,
            self.previous_hash,
            self.nonce,
        )
    }

    /// The stored hash is the digest of the content.
    pub open spec fn is_sealed(self) -> bool {
        self.hash == self.digest()
    }

    /// What a block shows of itself: index, stored hash, previous hash and
    /// nonce, and no transactions.
    pub open spec fn display_text(self) -> Seq<char> {
        "Block #"@ + decimal_text(self.index) + " [Hash: "@ + self.hash + ", Prev. Hash: "@
            + self.previous_hash + ", Nonce: "@ + decimal_text(self.nonce) + "]"@
    }
}

impl Block {
    /// The digest of a block with the given content.
    pub fn compute_hash(
        index: u32,
        timestamp: u64,
        transactions: &Vec<Transaction>,
        previous_hash: &str,
        nonce: u32,
    ) -> (hash: String)
        ensures
            hash@ == block_digest(
                index as nat,
                timestamp as nat,
                transaction_views(transactions@),
                previous_hash@,
                nonce as nat,
            ),
    {
        let mut input = String::new();
        append_decimal(&mut input, index as u64);
        append_decimal(&mut input, timestamp);
        append_list_text(transactions, &mut input);
        input.append(previous_hash);
        append_decimal(&mut input, nonce as u64);
        assert(input@ =~= preimage(
            index as nat,
            timestamp as nat,
            transaction_views(transactions@),
            previous_hash@,
            nonce as nat,
        ));
        let bytes = sha256(input.as_str().as_bytes());
        to_hex(bytes.as_slice())
    }

    /// A sealed block with the given content.
    pub fn new(
        index: u32,
        timestamp: u64,
        transactions: Vec<Transaction>,
        previous_hash: String,
        nonce: u32,
    ) -> (block: Block)
        ensures
            block.index == index,
            block.timestamp == timestamp,
            block.transactions == transactions,
            block.previous_hash == previous_hash,
            block.nonce == nonce,
            block@ == sealed_block(
                index as nat,
                timestamp as nat,
                transaction_views(transactions@),
                previous_hash@,
                nonce as nat,
            ),
    {
        let hash = Block::compute_hash(
            index,
            timestamp,
            &transactions,
            previous_hash.as_str(),
            nonce,
        );
        Block { index, timestamp, transactions, previous_hash, hash, nonce }
    }

    /// The digest of this block's content, computed afresh.
    pub fn hash_block(&self) -> (hash: String)
        ensures
            hash@ == self@.digest(),
    {
        Block::compute_hash(
            self.index,
            self.timestamp,
            &self.transactions,
            self.previous_hash.as_str(),
            self.nonce,
        )
    }

    /// The one-line description of this block.
    pub fn to_text(&self) -> (out: String)
        ensures
            out@ == self@.display_text(),
    {
        let mut out = String::new();
        out.append("Block #");
        append_decimal(&mut out, self.index as u64);
        out.append(" [Hash: ");
        out.append(self.hash.as_str());
        out.append(", Prev. Hash: ");
        out.append(self.previous_hash.as_str());
        out.append(", Nonce: ");
        append_decimal(&mut out, self.nonce as u64);
        out.append("]");
        assert(out@ =~= self@.display_text());
        out
    }
}

/// The digest depends on the five content fields alone: two blocks that agree
/// on them have the same digest, whatever hashes they store.
pub proof fn lemma_digest_is_function_of_content(a: BlockView, b: BlockView)
    requires
        a.index == b.index,
        a.timestamp == b.timestamp,
        a.transactions == b.transactions,
        a.previous_hash == b.previous_hash,
        a.nonce == b.nonce,
    ensures
        a.digest() == b.digest(),
{
}

/// Sealing is repeatable: a sealed block made from some content stores the
/// digest of that content, and digesting it again gives the stored hash.
pub proof fn lemma_sealed_block_is_sealed(
    index: nat,
    timestamp: nat,
    transactions: Seq<TransactionView>,
    previous_hash: Seq<char>,
    nonce: nat,
)
    ensures
        sealed_block(index, timestamp, transactions, previous_hash, nonce).is_sealed(),
        sealed_block(index, timestamp, transactions, previous_hash, nonce).digest()
            == block_digest(index, timestamp, transactions, previous_hash, nonce),
{
}

} // verus!
