//! Transactions and their canonical text.

use crate::text::{quote, quoted_text};
use vstd::prelude::*;
use vstd::string::*;

verus! {

/// A payload record: who sends, who receives, and how much. The ledger hashes
/// it and never interprets it.
#[derive(Debug)]
pub struct Transaction {
    pub sender: String,
    pub receiver: String,
    /// The amount as a decimal numeral with a fractional part, such as `1.0`.
    pub amount: String,
}

/// A transaction as three texts.
pub ghost struct TransactionView {
    pub sender: Seq<char>,
    pub receiver: Seq<char>,
    pub amount: Seq<char>,
}

impl View for Transaction {
    type V = TransactionView;

    open spec fn view(&self) -> TransactionView {
        TransactionView { sender: self.sender@, receiver: self.receiver@, amount: self.amount@ }
    }
}

impl Clone for Transaction {
    fn clone(&self) -> (copy: Transaction)
        ensures
            copy == *self,
    {
        Transaction {
            sender: self.sender.clone(),
            receiver: self.receiver.clone(),
            amount: self.amount.clone(),
        }
    }
}

impl TransactionView {
    /// The canonical text of one transaction: its name, then the three
    /// fields by name, sender and receiver quoted.
    pub open spec fn text(self) -> Seq<char> {
        "Transaction { sender: "@ + quoted_text(self.sender) + ", receiver: "@ + quoted_text(
            self.receiver,
        ) + ", amount: "@ + self.amount + " }"@
    }
}

/// The transactions of a list, each as three texts.
pub open spec fn transaction_views(items: Seq<Transaction>) -> Seq<TransactionView> {
    items.map_values(|t: Transaction| t@)
}

/// The canonical texts of the transactions, in order, with `", "` between
/// neighbours.
pub open spec fn items_text(items: Seq<TransactionView>) -> Seq<char>
    decreases items.len(),
{
    if items.len() == 0 {
        Seq::empty()
    } else if items.len() == 1 {
        items[0].text()
    } else {
        items_text(items.drop_last()) + ", "@ + items.last().text()
    }
}

/// The canonical text of a transaction list: the items in square brackets.
pub open spec fn list_text(items: Seq<TransactionView>) -> Seq<char> {
    "["@ + items_text(items) + "]"@
}

impl Transaction {
    /// A transaction with the given fields.
    pub fn new(sender: String, receiver: String, amount: String) -> (t: Transaction)
        ensures
            t.sender == sender,
            t.receiver == receiver,
            t.amount == amount,
    {
        Transaction { sender, receiver, amount }
    }

    /// Appends the canonical text of this transaction to `out`.
    pub fn append_text(&self, out: &mut String)
        ensures
            final(out)@ == old(out)@ + self@.text(),
    {
        out.append("Transaction { sender: ");
        let sender = quote(self.sender.as_str());
        out.append(sender.as_str());
        out.append(", receiver: ");
        let receiver = quote(self.receiver.as_str());
        out.append(receiver.as_str());
        out.append(", amount: ");
        out.append(self.amount.as_str());
        out.append(" }");
        assert(out@ =~= old(out)@ + self@.text());
    }
}

/// Appends the canonical text of the transaction list to `out`.
pub fn append_list_text(items: &Vec<Transaction>, out: &mut String)
    ensures
        final(out)@ == old(out)@ + list_text(transaction_views(items@)),
{
    out.append("[");
    let ghost start = out@;
    let ghost views = transaction_views(items@);
    let mut i: usize = 0;
    while i < items.len()
        invariant
            i <= items@.len(),
            views == transaction_views(items@),
            out@ == start + items_text(views.take(i as int)),
        decreases items@.len() - i,
    {
        assert(views.take(i + 1).drop_last() =~= views.take(i as int));
        assert(views.take(i + 1).last() == items@[i as int]@);
        if i > 0 {
            out.append(", ");
        }
        items[i].append_text(out);
        i += 1;
        assert(out@ =~= start + items_text(views.take(i as int)));
    }
    assert(views.take(i as int) =~= views);
    out.append("]");
    assert(out@ =~= old(out)@ + list_text(views));
}

} // verus!
