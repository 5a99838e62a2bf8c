//! The decisions of one sync run, as a state machine. The caller performs
//! each action it hands out (ask the user, create an expense) and reports
//! back with the next event; the run itself does no I/O.
//!
//! A run considers the transactions that the filter keeps, in their order.
//! It skips each one that the snapshot holds, asks for a confirmation unless
//! told to assume yes, and creates an expense for it unless it is a dry run.
//! A failed create does not stop the run. By default the snapshot stays as
//! it was fetched; with `refresh_snapshot` each expense created adds to it.

use vstd::prelude::*;
use crate::duplicate::{expense_exists, is_duplicate, provenance_tag, tag_for};
use crate::filter::{filter_transactions, lemma_selection_is_ordered_subsequence, selection, SyncFilterCriteria};
use crate::money::{cents_text, format_negated_cents};
use crate::remote::{draft_expense, is_draft_for, ExpenseDraft};
use crate::transaction::{RemoteExpense, Transaction};

verus! {

#[derive(Clone, Copy, Debug, PartialEq, Eq, Structural)]
pub struct SyncOptions {
    /// The group the expenses are created in.
    pub group_id: i64,
    /// Create without asking.
    pub assume_yes: bool,
    /// Write nothing to the ledger.
    pub dry_run: bool,
    /// Add each expense created to the snapshot, so that the rest of the run
    /// takes it into account.
    pub refresh_snapshot: bool,
}

/// What the caller reports to the run.
#[derive(Clone, Copy, Debug, PartialEq, Eq, Structural)]
pub enum SyncEvent {
    /// Go on: at the start, or after an action without anything to report.
    Proceed,
    /// The user's answer to the last confirmation asked; an answer that could
    /// not be read counts as no.
    Answer(bool),
    /// The create call of the last action finished: whether it succeeded.
    Created(bool),
}

/// What the run asks the caller to do next.
#[derive(Clone, Debug, PartialEq, Eq)]
pub enum SyncAction {
    /// Ask the user whether to sync the transaction at `index`.
    Confirm { index: usize },
    /// Create the expense for the transaction at `index`.
    Create { index: usize, draft: ExpenseDraft },
    /// The run is over.
    Finish,
}

/// One sync run over the transactions of an export and a snapshot of the
/// ledger taken before it started.
pub struct SyncRun {
    transactions: Vec<Transaction>,
    snapshot: Vec<RemoteExpense>,
    candidates: Vec<usize>,
    cursor: Cursor,
    options: SyncOptions,
}

/// Where a run stands: how many candidates it is past, or the one whose
/// answer it waits for, and whether its last action was a create.
#[derive(Clone, Copy, Debug, PartialEq, Eq, Structural)]
struct Cursor {
    position: usize,
    awaiting_answer: bool,
    just_created: bool,
}

impl SyncRun {
    pub closed spec fn txns(&self) -> Seq<Transaction> {
        self.transactions@
    }

    pub closed spec fn expenses(&self) -> Seq<RemoteExpense> {
        self.snapshot@
    }

    /// Positions of the transactions that the filter kept, in order.
    pub closed spec fn cands(&self) -> Seq<usize> {
        self.candidates@
    }

    /// How many of the candidates the run is past, or the one it asks about.
    pub closed spec fn pos(&self) -> int {
        self.cursor.position as int
    }

    /// Whether the run waits for the answer on the candidate at `pos`.
    pub closed spec fn awaiting(&self) -> bool {
        self.cursor.awaiting_answer
    }

    /// Whether the last action was to create the expense of the candidate
    /// just before `pos`.
    pub closed spec fn after_create(&self) -> bool {
        self.cursor.just_created
    }

    pub closed spec fn opts(&self) -> SyncOptions {
        self.options
    }

    /// The candidates are positions of transactions; a run that waits for an
    /// answer waits on a candidate that needs one. `new` gives a well-formed
    /// run and `step` keeps it so.
    pub closed spec fn wf(&self) -> bool {
        &&& forall|k: int|
            0 <= k < self.candidates@.len() ==> #[trigger] self.candidates@[k]
                < self.transactions@.len()
        &&& self.cursor.position <= self.candidates@.len()
        &&& self.cursor.awaiting_answer ==> {
            &&& self.cursor.position < self.candidates@.len()
            &&& !self.options.assume_yes
            &&& !self.cursor.just_created
            &&& needs_action(*self, self.cursor.position as int)
        }
        &&& self.cursor.just_created ==> self.cursor.position >= 1
    }
}

/// The transaction at candidate `k`.
pub open spec fn candidate(run: SyncRun, k: int) -> Transaction {
    run.txns()[run.cands()[k] as int]
}

/// Candidate `k` is no duplicate, and there is something to do for it: a
/// question to ask or an expense to create.
pub open spec fn needs_action(run: SyncRun, k: int) -> bool {
    &&& !is_duplicate(run.expenses(), candidate(run, k))
    &&& (!run.opts().assume_yes || !run.opts().dry_run)
}

/// The first candidate from `from` on that needs an action, or the number of
/// candidates where none does.
pub open spec fn next_stop(run: SyncRun, from: int) -> int
    decreases run.cands().len() - from,
{
    if from >= run.cands().len() {
        run.cands().len() as int
    } else if needs_action(run, from) {
        from
    } else {
        next_stop(run, from + 1)
    }
}

/// The two runs differ at most in where they stand.
pub open spec fn same_run(a: SyncRun, b: SyncRun) -> bool {
    &&& a.txns() == b.txns()
    &&& a.expenses() == b.expenses()
    &&& a.cands() == b.cands()
    &&& a.opts() == b.opts()
}

/// The run creates the expense for candidate `k` and moves past it.
pub open spec fn creates_at(run: SyncRun, r: SyncAction, k: int) -> bool {
    &&& r matches SyncAction::Create { index, draft } && index == run.cands()[k] && is_draft_for(
        draft,
        candidate(run, k),
        run.opts().group_id,
    )
    &&& run.pos() == k + 1
    &&& !run.awaiting()
    &&& run.after_create()
}

/// The run went on from candidate `from`: to the next one that needs an
/// action, asking about it or creating its expense, or to its end.
pub open spec fn advances_from(run: SyncRun, r: SyncAction, from: int) -> bool {
    let k = next_stop(run, from);
    if k >= run.cands().len() {
        &&& r is Finish
        &&& run.pos() == run.cands().len()
        &&& !run.awaiting()
        &&& !run.after_create()
    } else if !run.opts().assume_yes {
        &&& r == SyncAction::Confirm { index: run.cands()[k] }
        &&& run.pos() == k
        &&& run.awaiting()
        &&& !run.after_create()
    } else {
        creates_at(run, r, k)
    }
}

/// The snapshot's record of the expense created for the transaction.
pub open spec fn is_record_of(e: RemoteExpense, t: Transaction) -> bool {
    &&& e.id is None
    &&& e.date == Some(t.date)
    &&& e.cost matches Some(c) && c@ == cents_text(-(t.amount_cents as int))
    &&& e.description matches Some(d) && d@ == t.description@
    &&& e.details matches Some(d) && d@ == provenance_tag(t.id@)
}

/// The event reports the success of a create that the run is to remember.
pub open spec fn refreshes(run: SyncRun, event: SyncEvent) -> bool {
    &&& !run.awaiting()
    &&& run.after_create()
    &&& run.opts().refresh_snapshot
    &&& event == SyncEvent::Created(true)
}

proof fn lemma_next_stop(run: SyncRun, from: int)
    requires
        0 <= from,
    ensures
        from <= next_stop(run, from) <= run.cands().len() || (from > run.cands().len()
            && next_stop(run, from) == run.cands().len()),
        next_stop(run, from) < run.cands().len() ==> needs_action(run, next_stop(run, from)),
    decreases run.cands().len() - from,
{
    if from < run.cands().len() && !needs_action(run, from) {
        lemma_next_stop(run, from + 1);
    }
}

proof fn lemma_next_stop_same(a: SyncRun, b: SyncRun, from: int)
    requires
        same_run(a, b),
    ensures
        next_stop(a, from) == next_stop(b, from),
    decreases a.cands().len() - from,
{
    if from < a.cands().len() {
        assert(needs_action(a, from) == needs_action(b, from));
        lemma_next_stop_same(a, b, from + 1);
    }
}

fn record_of(t: &Transaction) -> (r: RemoteExpense)
    ensures
        is_record_of(r, *t),
{
    RemoteExpense {
        id: None,
        date: Some(t.date),
        cost: Some(format_negated_cents(t.amount_cents)),
        description: Some(t.description.clone()),
        details: Some(tag_for(t.id.as_str())),
    }
}

impl SyncRun {
    /// Starts a run: the filter picks the candidates, in the order of the
    /// transactions.
    pub fn new(
        transactions: Vec<Transaction>,
        snapshot: Vec<RemoteExpense>,
        criteria: &SyncFilterCriteria,
        options: SyncOptions,
    ) -> (r: SyncRun)
        ensures
            r.txns() == transactions@,
            r.expenses() == snapshot@,
            r.cands().len() == selection(transactions@, *criteria).len(),
            forall|k: int|
                0 <= k < r.cands().len() ==> r.cands()[k] as int == #[trigger] selection(
                    transactions@,
                    *criteria,
                )[k],
            r.opts() == options,
            r.pos() == 0,
            !r.awaiting(),
            !r.after_create(),
            r.wf(),
    {
        let candidates = filter_transactions(transactions.as_slice(), criteria);
        proof {
            lemma_selection_is_ordered_subsequence(transactions@, *criteria);
            assert forall|k: int| 0 <= k < candidates@.len() implies #[trigger] candidates@[k]
                < transactions@.len() by {
                assert(candidates@[k] as int == selection(transactions@, *criteria)[k]);
            }
        }
        SyncRun {
            transactions,
            snapshot,
            candidates,
            cursor: Cursor { position: 0, awaiting_answer: false, just_created: false },
            options,
        }
    }

    /// The transaction at `index`, if there is one.
    pub fn transaction(&self, index: usize) -> (r: Option<&Transaction>)
        ensures
            index < self.txns().len() ==> r == Some(&self.txns()[index as int]),
            index >= self.txns().len() ==> r is None,
    {
        if index < self.transactions.len() {
            Some(&self.transactions[index])
        } else {
            None
        }
    }

    /// How many transactions the filter kept.
    pub fn candidate_count(&self) -> (r: usize)
        ensures
            r == self.cands().len(),
    {
        self.candidates.len()
    }

    /// How many expenses the snapshot holds.
    pub fn snapshot_len(&self) -> (r: usize)
        ensures
            r == self.expenses().len(),
    {
        self.snapshot.len()
    }

    /// Moves on from candidate `from` to the next that needs an action.
    fn advance(&mut self, from: usize) -> (r: SyncAction)
        requires
            old(self).wf(),
            from <= old(self).cands().len(),
        ensures
            final(self).wf(),
            same_run(*old(self), *final(self)),
            advances_from(*final(self), r, from as int),
    {
        let ghost start = *self;
        let mut k = from;
        while k < self.candidates.len()
            invariant
                *self == start,
                start == *old(self),
                from <= k <= start.cands().len(),
                next_stop(start, from as int) == next_stop(start, k as int),
                forall|j: int|
                    0 <= j < self.candidates@.len() ==> #[trigger] self.candidates@[j]
                        < self.transactions@.len(),
            decreases self.candidates.len() - k,
        {
            let index = self.candidates[k];
            let duplicate = expense_exists(self.snapshot.as_slice(), &self.transactions[index]);
            if !duplicate && (!self.options.assume_yes || !self.options.dry_run) {
                assert(needs_action(start, k as int));
                if !self.options.assume_yes {
                    self.cursor = Cursor { position: k, awaiting_answer: true, just_created: false };
                    proof {
                        lemma_next_stop_same(start, *self, from as int);
                    }
                    return SyncAction::Confirm { index };
                } else {
                    let draft = draft_expense(&self.transactions[index], self.options.group_id);
                    self.cursor = Cursor { position: k + 1, awaiting_answer: false, just_created: true };
                    proof {
                        lemma_next_stop_same(start, *self, from as int);
                    }
                    return SyncAction::Create { index, draft };
                }
            }
            k = k + 1;
        }
        self.cursor = Cursor {
            position: self.candidates.len(),
            awaiting_answer: false,
            just_created: false,
        };
        proof {
            lemma_next_stop_same(start, *self, from as int);
        }
        SyncAction::Finish
    }

    /// Takes the caller's event and says what to do next.
    pub fn step(&mut self, event: SyncEvent) -> (r: SyncAction)
        requires
            old(self).wf(),
        ensures
            final(self).wf(),
            final(self).txns() == old(self).txns(),
            final(self).cands() == old(self).cands(),
            final(self).opts() == old(self).opts(),
            refreshes(*old(self), event) ==> {
                &&& final(self).expenses().drop_last() == old(self).expenses()
                &&& final(self).expenses().len() == old(self).expenses().len() + 1
                &&& is_record_of(
                    final(self).expenses().last(),
                    candidate(*old(self), old(self).pos() - 1),
                )
            },
            !refreshes(*old(self), event) ==> final(self).expenses() == old(self).expenses(),
            old(self).awaiting() ==> match event {
                SyncEvent::Answer(yes) => if yes && !old(self).opts().dry_run {
                    creates_at(*final(self), r, old(self).pos())
                } else {
                    advances_from(*final(self), r, old(self).pos() + 1)
                },
                _ => r == SyncAction::Confirm { index: old(self).cands()[old(self).pos()] }
                    && *final(self) == *old(self),
            },
            !old(self).awaiting() ==> advances_from(*final(self), r, old(self).pos()),
            old(self).opts().dry_run ==> !(r is Create),
            old(self).opts().assume_yes ==> !(r is Confirm),
            r matches SyncAction::Confirm { index } ==> !is_duplicate(
                final(self).expenses(),
                final(self).txns()[index as int],
            ),
            r matches SyncAction::Create { index, .. } ==> !is_duplicate(
                final(self).expenses(),
                final(self).txns()[index as int],
            ),
    {
        let count = self.candidates.len();
        if self.cursor.awaiting_answer {
            let k = self.cursor.position;
            assert(k < count);
            let index = self.candidates[k];
            if let SyncEvent::Answer(yes) = event {
                if yes && !self.options.dry_run {
                    let draft = draft_expense(&self.transactions[index], self.options.group_id);
                    self.cursor = Cursor { position: k + 1, awaiting_answer: false, just_created: true };
                    return SyncAction::Create { index, draft };
                }
                let r = self.advance(k + 1);
                proof {
                    lemma_next_stop(*final(self), k + 1);
                }
                return r;
            }
            return SyncAction::Confirm { index };
        }
        if self.cursor.just_created && self.options.refresh_snapshot && event == SyncEvent::Created(
            true,
        ) {
            let created = self.cursor.position - 1;
            let index = self.candidates[created];
            let record = record_of(&self.transactions[index]);
            self.snapshot.push(record);
            proof {
                assert(self.snapshot@.drop_last() =~= old(self).expenses());
            }
        }
        let r = self.advance(self.cursor.position);
        proof {
            lemma_next_stop(*final(self), old(self).pos());
        }
        r
    }
}

} // verus!
