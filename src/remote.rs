//! What the sync hands the ledger and reads back from it: the expense it
//! creates for a transaction, and the errors that a response may carry.

use vstd::prelude::*;
use crate::calendar::Date;
use crate::duplicate::{provenance_tag, tag_for};
use crate::money::{cents_text, format_negated_cents};
use crate::text::{join, joined};
use crate::transaction::Transaction;

verus! {

/// The one currency the sync writes expenses in.
pub open spec fn sync_currency() -> Seq<char> {
    "USD"@
}

/// The repeat setting of the expenses the sync creates.
pub open spec fn no_repeat() -> Seq<char> {
    "never"@
}

/// The expense that the sync asks the ledger to create for a transaction.
#[derive(Clone, Debug, PartialEq, Eq)]
pub struct ExpenseDraft {
    /// The cost with exactly two decimals.
    pub cost: String,
    pub description: String,
    /// Notes of the expense: the transaction's tag.
    pub details: String,
    /// The day of the expense, at midnight.
    pub date: Date,
    pub repeat_interval: String,
    pub currency_code: String,
    /// The default category.
    pub category_id: i64,
    pub group_id: i64,
    /// Split equally among the group, the caller paying.
    pub split_equally: bool,
}

/// The draft is the expense the sync creates for the transaction in the group.
pub open spec fn is_draft_for(d: ExpenseDraft, t: Transaction, group_id: i64) -> bool {
    &&& d.cost@ == cents_text(-(t.amount_cents as int))
    &&& d.description@ == t.description@
    &&& d.details@ == provenance_tag(t.id@)
    &&& d.date == t.date
    &&& d.repeat_interval@ == no_repeat()
    &&& d.currency_code@ == sync_currency()
    &&& d.category_id == 0
    &&& d.group_id == group_id
    &&& d.split_equally
}

/// The expense to create for the transaction: its amount with the sign turned,
/// its description, its tag as notes, its date, split equally in the group.
pub fn draft_expense(t: &Transaction, group_id: i64) -> (r: ExpenseDraft)
    ensures
        is_draft_for(r, *t, group_id),
{
    ExpenseDraft {
        cost: format_negated_cents(t.amount_cents),
        description: t.description.clone(),
        details: tag_for(t.id.as_str()),
        date: t.date,
        repeat_interval: String::from_str("never"),
        currency_code: String::from_str("USD"),
        category_id: 0,
        group_id,
        split_equally: true,
    }
}

/// One field's errors as `field: [first; second];`.
pub open spec fn entry_text(e: (String, Vec<String>)) -> Seq<char> {
    e.0@ + ": ["@ + joined(e.1@, "; "@) + "];"@
}

pub open spec fn errors_text(es: Seq<(String, Vec<String>)>) -> Seq<char>
    decreases es.len(),
{
    if es.len() == 0 {
        Seq::empty()
    } else {
        errors_text(es.drop_last()) + entry_text(es.last())
    }
}

/// Writes the errors of a response, field by field in the order given, as
/// one message.
pub fn join_errors(errors: &[(String, Vec<String>)]) -> (r: String)
    ensures
        r@ == errors_text(errors@),
{
    let mut r = String::new();
    let mut i: usize = 0;
    while i < errors.len()
        invariant
            i <= errors@.len(),
            r@ == errors_text(errors@.take(i as int)),
        decreases errors.len() - i,
    {
        proof {
            assert(errors@.take(i + 1).drop_last() =~= errors@.take(i as int));
        }
        let (field, messages) = &errors[i];
        r.append(field.as_str());
        r.append(": [");
        let listed = join(messages.as_slice(), "; ");
        r.append(listed.as_str());
        r.append("];");
        proof {
            assert(r@ =~= errors_text(errors@.take(i + 1)));
        }
        i = i + 1;
    }
    assert(errors@.take(errors@.len() as int) =~= errors@);
    r
}

/// The outcome of a create call whose response arrived: a failure, with the
/// joined errors, exactly when the response lists some errors.
pub fn create_outcome(errors: &Option<Vec<(String, Vec<String>)>>) -> (r: Result<(), String>)
    ensures
        r is Err <==> (errors matches Some(es) && es@.len() > 0),
        r matches Err(m) ==> (errors matches Some(es) && m@ == errors_text(es@)),
{
    match errors {
        Some(es) => {
            if es.len() > 0 {
                Err(join_errors(es.as_slice()))
            } else {
                Ok(())
            }
        },
        None => Ok(()),
    }
}

/// How a response of the ledger is read, by its HTTP status.
#[derive(Clone, Copy, Debug, PartialEq, Eq, Structural)]
pub enum ResponseClass {
    /// 200: the body is the answer.
    Success,
    /// 401: the body holds one error.
    Unauthorized,
    /// 403 or 404: the body holds a list of errors.
    ForbiddenOrNotFound,
    /// Any other status.
    Unexpected,
}

pub fn classify_status(status: u16) -> (r: ResponseClass)
    ensures
        r == (if status == 200 {
            ResponseClass::Success
        } else if status == 401 {
            ResponseClass::Unauthorized
        } else if status == 403 || status == 404 {
            ResponseClass::ForbiddenOrNotFound
        } else {
            ResponseClass::Unexpected
        }),
{
    if status == 200 {
        ResponseClass::Success
    } else if status == 401 {
        ResponseClass::Unauthorized
    } else if status == 403 || status == 404 {
        ResponseClass::ForbiddenOrNotFound
    } else {
        ResponseClass::Unexpected
    }
}

/// The base URL with a `/` at its end, so that paths join below it.
pub fn with_trailing_slash(base_url: &str) -> (r: String)
    ensures
        r@ == if base_url@.len() > 0 && base_url@.last() == '/' {
            base_url@
        } else {
            base_url@.push('/')
        },
{
    let mut r = String::from_str(base_url);
    let n = base_url.unicode_len();
    if n == 0 || base_url.get_char(n - 1) != '/' {
        crate::text::push_char(&mut r, '/');
    }
    r
}

} // verus!
