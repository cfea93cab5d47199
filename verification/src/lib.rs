//! A minimal hash-linked ledger: blocks of transactions, each sealed with the
//! SHA-256 digest of its canonical text, a proof-of-work search for the next
//! block, and a check that a chain has not been altered.

pub mod text;
pub mod digest;
pub mod transaction;
pub mod block;
pub mod chain;

