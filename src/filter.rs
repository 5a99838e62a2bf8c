//! The filter pipeline: which transactions of an export the sync considers.

use vstd::prelude::*;
use crate::calendar::Date;
use crate::pattern::{regex_finds, Pattern};
use crate::transaction::Transaction;

verus! {

/// What one sync run looks at. Bounds on dates are inclusive; a side left
/// `None` is unbounded, as is a missing pattern or limit.
#[derive(Debug)]
pub struct SyncFilterCriteria {
    pub after: Option<Date>,
    pub before: Option<Date>,
    /// Keep incomes too, not only expenses.
    pub include_income: bool,
    /// Pattern that the account name must match.
    pub account: Option<Pattern>,
    /// Pattern that the description must match.
    pub description: Option<Pattern>,
    /// Consider at most this many transactions.
    pub limit: Option<usize>,
}

pub open spec fn pattern_allows(p: Option<Pattern>, s: Seq<char>) -> bool {
    match p {
        Some(p) => regex_finds(p.text(), p.ignores_case(), s),
        None => true,
    }
}

/// The transaction passes every test of the criteria but the limit.
pub open spec fn passes(t: Transaction, c: SyncFilterCriteria) -> bool {
    &&& (c.after matches Some(a) ==> a@ <= t.date@)
    &&& (c.before matches Some(b) ==> t.date@ <= b@)
    &&& (t.is_expense || c.include_income)
    &&& pattern_allows(c.account, t.account_name@)
    &&& pattern_allows(c.description, t.description@)
}

/// Positions, in order, of the transactions among the first `n` that pass.
pub open spec fn passing(ts: Seq<Transaction>, c: SyncFilterCriteria, n: int) -> Seq<int>
    decreases n,
{
    if n <= 0 {
        Seq::empty()
    } else if passes(ts[n - 1], c) {
        passing(ts, c, n - 1).push(n - 1)
    } else {
        passing(ts, c, n - 1)
    }
}

pub open spec fn limited(s: Seq<int>, limit: Option<usize>) -> Seq<int> {
    match limit {
        Some(l) => if l < s.len() {
            s.take(l as int)
        } else {
            s
        },
        None => s,
    }
}

/// Positions of the transactions that the sync considers: those that pass,
/// the first `limit` of them where a limit is set.
pub open spec fn selection(ts: Seq<Transaction>, c: SyncFilterCriteria) -> Seq<int> {
    limited(passing(ts, c, ts.len() as int), c.limit)
}

fn allows(p: &Option<Pattern>, s: &str) -> (r: bool)
    ensures
        r == pattern_allows(*p, s@),
{
    match p {
        Some(p) => p.is_match(s),
        None => true,
    }
}

/// Whether the transaction passes every test of the criteria but the limit,
/// the tests taken in order and stopping at the first that fails.
pub fn passes_filter(t: &Transaction, c: &SyncFilterCriteria) -> (r: bool)
    ensures
        r == passes(*t, *c),
{
    let day = t.date.days_from_ce();
    if let Some(a) = &c.after {
        if day < a.days_from_ce() {
            return false;
        }
    }
    if let Some(b) = &c.before {
        if day > b.days_from_ce() {
            return false;
        }
    }
    if !(t.is_expense || c.include_income) {
        return false;
    }
    allows(&c.account, t.account_name.as_str()) && allows(&c.description, t.description.as_str())
}

/// Positions, in order, of the transactions the sync considers under the
/// criteria.
pub fn filter_transactions(txns: &[Transaction], c: &SyncFilterCriteria) -> (r: Vec<usize>)
    ensures
        r@.len() == selection(txns@, *c).len(),
        forall|k: int| 0 <= k < r@.len() ==> r@[k] as int == #[trigger] selection(txns@, *c)[k],
{
    let mut r: Vec<usize> = Vec::new();
    let mut i: usize = 0;
    while i < txns.len()
        invariant
            i <= txns@.len(),
            r@.len() == limited(passing(txns@, *c, i as int), c.limit).len(),
            forall|k: int|
                0 <= k < r@.len() ==> r@[k] as int == #[trigger] limited(
                    passing(txns@, *c, i as int),
                    c.limit,
                )[k],
        decreases txns.len() - i,
    {
        let room = match c.limit {
            Some(l) => r.len() < l,
            None => true,
        };
        let keep = passes_filter(&txns[i], c);
        let ghost before = passing(txns@, *c, i as int);
        let ghost old_r = r@;
        if keep && room {
            r.push(i);
        }
        proof {
            let after = passing(txns@, *c, i + 1);
            if keep {
                assert(after == before.push(i as int));
                if room {
                    assert(limited(after, c.limit) =~= limited(before, c.limit).push(i as int));
                } else {
                    assert(limited(after, c.limit) =~= limited(before, c.limit));
                }
            } else {
                assert(after == before);
            }
            assert(r@.len() == limited(after, c.limit).len());
        }
        i = i + 1;
    }
    r
}

/// What the filter keeps is a subsequence of the transactions, in their
/// order, and no longer than the limit.
pub proof fn lemma_selection_is_ordered_subsequence(ts: Seq<Transaction>, c: SyncFilterCriteria)
    ensures
        forall|k: int|
            0 <= k < selection(ts, c).len() ==> 0 <= #[trigger] selection(ts, c)[k] < ts.len(),
        forall|k: int, l: int|
            0 <= k < l < selection(ts, c).len() ==> #[trigger] selection(ts, c)[k]
                < #[trigger] selection(ts, c)[l],
        c.limit matches Some(l) ==> selection(ts, c).len() <= l,
{
    lemma_passing_ordered(ts, c, ts.len() as int);
}

proof fn lemma_passing_ordered(ts: Seq<Transaction>, c: SyncFilterCriteria, n: int)
    requires
        0 <= n <= ts.len(),
    ensures
        forall|k: int| 0 <= k < passing(ts, c, n).len() ==> 0 <= #[trigger] passing(ts, c, n)[k] < n,
        forall|k: int, l: int|
            0 <= k < l < passing(ts, c, n).len() ==> #[trigger] passing(ts, c, n)[k]
                < #[trigger] passing(ts, c, n)[l],
        forall|k: int| 0 <= k < passing(ts, c, n).len() ==> passes(ts[#[trigger] passing(ts, c, n)[k]], c),
    decreases n,
{
    if n > 0 {
        lemma_passing_ordered(ts, c, n - 1);
        let p = passing(ts, c, n - 1);
        if passes(ts[n - 1], c) {
            assert(passing(ts, c, n) == p.push(n - 1));
        } else {
            assert(passing(ts, c, n) == p);
        }
    } else {
        assert(passing(ts, c, n).len() == 0);
    }
}

/// Without `include_income`, the filter keeps expenses only.
pub proof fn lemma_selection_without_income_keeps_expenses(
    ts: Seq<Transaction>,
    c: SyncFilterCriteria,
)
    requires
        !c.include_income,
    ensures
        forall|k: int| 0 <= k < selection(ts, c).len() ==> ts[#[trigger] selection(ts, c)[k]].is_expense,
{
    lemma_passing_ordered(ts, c, ts.len() as int);
}

} // verus!
