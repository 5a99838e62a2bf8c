//! The transactions that an export of a bank or card account holds, in the
//! normalized form that the sync works on.

use vstd::prelude::*;
use crate::calendar::Date;

verus! {

/// One transaction of the export. `amount_cents` is signed as the export has
/// it: money going out is negative.
#[derive(Clone, Debug, PartialEq, Eq)]
pub struct Transaction {
    /// Identifier of the transaction in the export, unique within one file.
    pub id: String,
    /// The day the transaction posted.
    pub date: Date,
    pub amount_cents: i64,
    pub description: String,
    /// Name of the account the transaction belongs to.
    pub account_name: String,
    /// Whether money went out (true) or came in (false).
    pub is_expense: bool,
}

/// An expense as the ledger holds it, as far as the sync reads it.
#[derive(Clone, Debug, PartialEq, Eq)]
pub struct RemoteExpense {
    pub id: Option<i64>,
    /// The day of the expense, where the ledger gave a date.
    pub date: Option<Date>,
    /// The cost as the ledger writes it, such as `"20.00"`.
    pub cost: Option<String>,
    pub description: Option<String>,
    /// The notes of the expense.
    pub details: Option<String>,
}

} // verus!
