use blockchain::block::Block;
use blockchain::transaction::{append_list_text, Transaction};

const GENESIS_HASH: &str = "67e2d1cc783d76216088a467bd13ca99a316c7892d8ee169ccc0894e2de19953";

fn tx(sender: &str, receiver: &str, amount: f32) -> Transaction {
    Transaction::new(sender.to_string(), receiver.to_string(), format!("{:?}", amount))
}

fn alice_and_bob() -> Vec<Transaction> {
    vec![tx("Alice", "Bob", 1.0), tx("Bob", "Charlie", 2.0)]
}

#[test]
fn transaction_text_is_canonical() {
    let mut out = String::new();
    tx("Alice", "Bob", 1.0).append_text(&mut out);
    assert_eq!(out, "Transaction { sender: \"Alice\", receiver: \"Bob\", amount: 1.0 }");
}

#[test]
fn transaction_text_escapes_quotes_and_backslashes() {
    let mut out = String::from(">");
    tx("a\"b", "c\\d", 0.5).append_text(&mut out);
    assert_eq!(out, ">Transaction { sender: \"a\\\"b\", receiver: \"c\\\\d\", amount: 0.5 }");
}

#[test]
fn empty_list_text_is_two_brackets() {
    let mut out = String::new();
    append_list_text(&Vec::new(), &mut out);
    assert_eq!(out, "[]");
}

#[test]
fn list_text_separates_items_with_comma_and_space() {
    let mut out = String::new();
    append_list_text(&alice_and_bob(), &mut out);
    assert_eq!(
        out,
        "[Transaction { sender: \"Alice\", receiver: \"Bob\", amount: 1.0 }, \
         Transaction { sender: \"Bob\", receiver: \"Charlie\", amount: 2.0 }]"
    );
}

#[test]
fn single_item_list_has_no_separator() {
    let mut out = String::new();
    append_list_text(&vec![tx("Alice", "Bob", 1.0)], &mut out);
    assert_eq!(out, "[Transaction { sender: \"Alice\", receiver: \"Bob\", amount: 1.0 }]");
}

#[test]
fn new_transaction_keeps_its_fields() {
    let t = tx("Alice", "Bob", 1.5);
    assert_eq!(t.sender, "Alice");
    assert_eq!(t.receiver, "Bob");
    assert_eq!(t.amount, "1.5");
}

#[test]
fn genesis_content_has_known_digest() {
    assert_eq!(Block::compute_hash(0, 0, &Vec::new(), "0", 0), GENESIS_HASH);
}

#[test]
fn fixture_has_known_digest() {
    assert_eq!(
        Block::compute_hash(7, 1234567890, &alice_and_bob(), "abc", 42),
        "0afe7c10af64b141202c384dde981e542ca24e467436fbd44c7ebc947d2b24fa"
    );
}

#[test]
fn escaped_fixture_has_known_digest() {
    assert_eq!(
        Block::compute_hash(3, 0, &vec![tx("a\"b", "c\\d", 0.5)], "x", 9),
        "c09c94a8a3f6bf2733e9c6716ebee80e0f00afd69df2263b11e2f4e8adf3e4ac"
    );
}

#[test]
fn digest_is_sixty_four_lowercase_hex_digits() {
    let h = Block::compute_hash(1, 2, &alice_and_bob(), "prev", 3);
    assert_eq!(h.len(), 64);
    assert!(h.chars().all(|c| c.is_ascii_digit() || ('a'..='f').contains(&c)));
}

#[test]
fn compute_hash_is_deterministic() {
    let a = Block::compute_hash(7, 1234567890, &alice_and_bob(), "abc", 42);
    let b = Block::compute_hash(7, 1234567890, &alice_and_bob(), "abc", 42);
    assert_eq!(a, b);
    let block = Block::new(7, 1234567890, alice_and_bob(), "abc".to_string(), 42);
    assert_eq!(block.hash_block(), block.hash_block());
    assert_eq!(block.hash_block(), a);
}

#[test]
fn compute_hash_is_sensitive_to_each_field() {
    let base = Block::compute_hash(7, 1234567890, &alice_and_bob(), "abc", 42);
    assert_ne!(Block::compute_hash(8, 1234567890, &alice_and_bob(), "abc", 42), base);
    assert_ne!(Block::compute_hash(7, 1234567891, &alice_and_bob(), "abc", 42), base);
    assert_ne!(Block::compute_hash(7, 1234567890, &alice_and_bob(), "abd", 42), base);
    assert_ne!(Block::compute_hash(7, 1234567890, &alice_and_bob(), "abc", 43), base);
    let other_sender = vec![tx("Alicia", "Bob", 1.0), tx("Bob", "Charlie", 2.0)];
    assert_ne!(Block::compute_hash(7, 1234567890, &other_sender, "abc", 42), base);
    let other_receiver = vec![tx("Alice", "Bob", 1.0), tx("Bob", "Carol", 2.0)];
    assert_ne!(Block::compute_hash(7, 1234567890, &other_receiver, "abc", 42), base);
    let other_amount = vec![tx("Alice", "Bob", 1.0), tx("Bob", "Charlie", 2.5)];
    assert_ne!(Block::compute_hash(7, 1234567890, &other_amount, "abc", 42), base);
    let fewer = vec![tx("Alice", "Bob", 1.0)];
    assert_ne!(Block::compute_hash(7, 1234567890, &fewer, "abc", 42), base);
    assert_ne!(Block::compute_hash(7, 1234567890, &Vec::new(), "abc", 42), base);
}

#[test]
fn new_block_keeps_fields_and_is_sealed() {
    let block = Block::new(1, 0, vec![tx("Alice", "Bob", 1.0)], GENESIS_HASH.to_string(), 0);
    assert_eq!(block.index, 1);
    assert_eq!(block.timestamp, 0);
    assert_eq!(block.transactions.len(), 1);
    assert_eq!(block.transactions[0].sender, "Alice");
    assert_eq!(block.previous_hash, GENESIS_HASH);
    assert_eq!(block.nonce, 0);
    assert_eq!(block.hash, "9d6ceb03ed46dbb2f23a54760a4ae7fea2e4d1c045720f35ce34cdbf7d46aaa0");
    assert_eq!(block.hash, block.hash_block());
}

#[test]
fn hash_block_ignores_stored_hash() {
    let mut block = Block::new(1, 5, alice_and_bob(), "0".to_string(), 9);
    let sealed = block.hash.clone();
    block.hash = String::from("something else");
    assert_eq!(block.hash_block(), sealed);
}

#[test]
fn block_text_shows_index_hashes_and_nonce() {
    let block = Block::new(0, 0, Vec::new(), "0".to_string(), 0);
    assert_eq!(
        block.to_text(),
        format!("Block #0 [Hash: {}, Prev. Hash: 0, Nonce: 0]", GENESIS_HASH)
    );
    let mut other = Block::new(12, 99, alice_and_bob(), "abc".to_string(), 345);
    other.hash = String::from("h");
    assert_eq!(other.to_text(), "Block #12 [Hash: h, Prev. Hash: abc, Nonce: 345]");
}
