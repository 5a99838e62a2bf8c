//! Decides whether a transaction already has an expense in the ledger: by the
//! tag that an earlier sync left in the notes, or by a close date and amount.

use vstd::prelude::*;
use crate::money::{cost_value, parse_cost};
use crate::transaction::{RemoteExpense, Transaction};

verus! {

/// Dates closer than this many days may be the same purchase.
pub const DAYS_TOLERANCE: i64 = 2;

/// Amounts closer than this many cents may be the same purchase.
pub const AMOUNT_TOLERANCE_CENTS: i64 = 100;

pub open spec fn contains_text(hay: Seq<char>, needle: Seq<char>) -> bool {
    exists|i: int|
        0 <= i && i + needle.len() <= hay.len() && #[trigger] hay.subrange(i, i + needle.len())
            == needle
}

/// Relies on `str::contains`: whether `needle` occurs somewhere in `hay`.
#[verifier::external_body]
fn str_contains(hay: &str, needle: &str) -> (r: bool)
    ensures
        r == contains_text(hay@, needle@),
{
    hay.contains(needle)
}

/// The tag that the sync writes into the notes of an expense it creates, to
/// know the transaction again: `source:` and the transaction's id.
pub open spec fn provenance_tag(id: Seq<char>) -> Seq<char> {
    "source:"@ + id
}

pub fn tag_for(id: &str) -> (r: String)
    ensures
        r@ == provenance_tag(id@),
{
    let mut tag = String::from_str("source:");
    tag.append(id);
    tag
}

pub open spec fn abs(x: int) -> int {
    if x < 0 { -x } else { x }
}

/// The expense's notes carry the transaction's tag.
pub open spec fn tag_match(t: Transaction, e: RemoteExpense) -> bool {
    match e.details {
        Some(d) => contains_text(d@, provenance_tag(t.id@)),
        None => false,
    }
}

/// The expense has a date and a readable cost, its date is less than
/// `DAYS_TOLERANCE` days from the transaction's, and its cost less than
/// `AMOUNT_TOLERANCE_CENTS` from the transaction's amount with the sign turned.
pub open spec fn fuzzy_match(t: Transaction, e: RemoteExpense) -> bool {
    match (e.date, e.cost) {
        (Some(d), Some(c)) => match cost_value(c@) {
            Some(v) => abs(t.date@ - d@) < DAYS_TOLERANCE && abs(-t.amount_cents - v)
                < AMOUNT_TOLERANCE_CENTS,
            None => false,
        },
        _ => false,
    }
}

pub open spec fn matches_expense(t: Transaction, e: RemoteExpense) -> bool {
    tag_match(t, e) || fuzzy_match(t, e)
}

/// Some expense of the snapshot matches the transaction.
pub open spec fn is_duplicate(snapshot: Seq<RemoteExpense>, t: Transaction) -> bool {
    exists|i: int| 0 <= i < snapshot.len() && matches_expense(t, #[trigger] snapshot[i])
}

/// Whether the expense's notes carry the tag.
fn has_tag(e: &RemoteExpense, tag: &str) -> (r: bool)
    ensures
        r == match e.details {
            Some(d) => contains_text(d@, tag@),
            None => false,
        },
{
    match &e.details {
        Some(d) => str_contains(d.as_str(), tag),
        None => false,
    }
}

/// Whether the expense is close to the transaction in date and amount.
pub fn is_fuzzy_match(txn: &Transaction, e: &RemoteExpense) -> (r: bool)
    ensures
        r == fuzzy_match(*txn, *e),
{
    let date = match &e.date {
        Some(d) => d,
        None => return false,
    };
    let cost = match &e.cost {
        Some(c) => match parse_cost(c.as_str()) {
            Some(v) => v,
            None => return false,
        },
        None => return false,
    };
    let days = txn.date.days_apart(date);
    let delta: i128 = -(txn.amount_cents as i128) - (cost as i128);
    let amount_delta: i128 = if delta < 0 { -delta } else { delta };
    days < DAYS_TOLERANCE && amount_delta < AMOUNT_TOLERANCE_CENTS as i128
}

/// Whether the snapshot already holds an expense for the transaction: one
/// whose notes carry the transaction's tag, or one close to it in date and
/// amount. The scan stops at the first expense that matches.
pub fn expense_exists(expenses: &[RemoteExpense], txn: &Transaction) -> (r: bool)
    ensures
        r == is_duplicate(expenses@, *txn),
{
    let tag = tag_for(txn.id.as_str());
    let mut i: usize = 0;
    while i < expenses.len()
        invariant
            i <= expenses@.len(),
            tag@ == provenance_tag(txn.id@),
            forall|j: int| 0 <= j < i ==> !matches_expense(*txn, #[trigger] expenses@[j]),
        decreases expenses.len() - i,
    {
        let e = &expenses[i];
        if has_tag(e, tag.as_str()) || is_fuzzy_match(txn, e) {
            assert(matches_expense(*txn, expenses@[i as int]));
            return true;
        }
        i = i + 1;
    }
    false
}

/// An expense whose notes carry a transaction's tag makes the transaction a
/// duplicate, whatever the dates and amounts.
pub proof fn lemma_tagged_expense_is_duplicate(
    snapshot: Seq<RemoteExpense>,
    t: Transaction,
    i: int,
)
    requires
        0 <= i < snapshot.len(),
        snapshot[i].details matches Some(d) && contains_text(d@, provenance_tag(t.id@)),
    ensures
        is_duplicate(snapshot, t),
{
    assert(matches_expense(t, snapshot[i]));
}

/// An expense whose cost cannot be read is never a close match, however near
/// its date.
pub proof fn lemma_unreadable_cost_never_fuzzy(t: Transaction, e: RemoteExpense)
    requires
        e.cost matches Some(c) && cost_value(c@) is None,
    ensures
        !fuzzy_match(t, e),
{
}

} // verus!
