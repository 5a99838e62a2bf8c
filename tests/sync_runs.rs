use splitwise::calendar::Date;
use splitwise::filter::SyncFilterCriteria;
use splitwise::remote::ExpenseDraft;
use splitwise::sync::{SyncAction, SyncEvent, SyncOptions, SyncRun};
use splitwise::transaction::{RemoteExpense, Transaction};

fn day(y: i32, m: u32, d: u32) -> Date {
    Date::from_ymd(y, m, d).unwrap()
}

fn txn(id: &str, date: Date, amount_cents: i64, description: &str) -> Transaction {
    Transaction {
        id: id.to_string(),
        date,
        amount_cents,
        description: description.to_string(),
        account_name: "Checking".to_string(),
        is_expense: true,
    }
}

fn defaults() -> SyncFilterCriteria {
    SyncFilterCriteria {
        after: None,
        before: None,
        include_income: false,
        account: None,
        description: None,
        limit: None,
    }
}

fn options(assume_yes: bool, dry_run: bool) -> SyncOptions {
    SyncOptions { group_id: 77, assume_yes, dry_run, refresh_snapshot: false }
}

/// What a run asked for: the indices it asked about, and the drafts it
/// wanted created.
struct Trace {
    prompts: Vec<usize>,
    creates: Vec<(usize, ExpenseDraft)>,
}

fn drive(run: SyncRun, answer: impl Fn(usize) -> bool) -> Trace {
    drive_with(run, answer, |_| true)
}

fn drive_with(
    mut run: SyncRun,
    answer: impl Fn(usize) -> bool,
    create_ok: impl Fn(usize) -> bool,
) -> Trace {
    let mut trace = Trace { prompts: Vec::new(), creates: Vec::new() };
    let mut event = SyncEvent::Proceed;
    for _ in 0..1000 {
        match run.step(event) {
            SyncAction::Confirm { index } => {
                trace.prompts.push(index);
                event = SyncEvent::Answer(answer(index));
            }
            SyncAction::Create { index, draft } => {
                trace.creates.push((index, draft));
                event = SyncEvent::Created(create_ok(index));
            }
            SyncAction::Finish => return trace,
        }
    }
    panic!("the run did not finish");
}

fn market() -> Vec<Transaction> {
    vec![txn("m1", day(2024, 3, 1), -4500, "Market")]
}

#[test]
fn assume_yes_creates_one_expense() {
    let run = SyncRun::new(market(), Vec::new(), &defaults(), options(true, false));
    let trace = drive(run, |_| false);
    assert!(trace.prompts.is_empty());
    assert_eq!(trace.creates.len(), 1);
    let (index, draft) = &trace.creates[0];
    assert_eq!(*index, 0);
    assert_eq!(draft.cost, "45.00");
    assert_eq!(draft.description, "Market");
    assert_eq!(draft.details, "source:m1");
    assert_eq!(draft.date, day(2024, 3, 1));
    assert_eq!(draft.currency_code, "USD");
    assert_eq!(draft.repeat_interval, "never");
    assert_eq!(draft.category_id, 0);
    assert_eq!(draft.group_id, 77);
    assert!(draft.split_equally);
}

#[test]
fn dry_run_creates_nothing() {
    let run = SyncRun::new(market(), Vec::new(), &defaults(), options(true, true));
    let trace = drive(run, |_| true);
    assert!(trace.creates.is_empty());
    let run = SyncRun::new(market(), Vec::new(), &defaults(), options(false, true));
    let trace = drive(run, |_| true);
    assert_eq!(trace.prompts, vec![0]);
    assert!(trace.creates.is_empty());
    let run = SyncRun::new(market(), Vec::new(), &defaults(), options(false, true));
    let trace = drive(run, |_| false);
    assert!(trace.creates.is_empty());
}

#[test]
fn tagged_candidate_is_neither_asked_nor_created() {
    let snapshot = vec![RemoteExpense {
        id: Some(5),
        date: Some(day(2023, 1, 1)),
        cost: Some("1.00".to_string()),
        description: Some("Old".to_string()),
        details: Some("source:m1".to_string()),
    }];
    let run = SyncRun::new(market(), snapshot.clone(), &defaults(), options(false, false));
    let trace = drive(run, |_| true);
    assert!(trace.prompts.is_empty());
    assert!(trace.creates.is_empty());
    let run = SyncRun::new(market(), snapshot, &defaults(), options(true, false));
    let trace = drive(run, |_| true);
    assert!(trace.creates.is_empty());
}

#[test]
fn confirmation_decides_each_item() {
    let txns = vec![
        txn("a", day(2024, 3, 1), -100, "One"),
        txn("b", day(2024, 3, 2), -200, "Two"),
        txn("c", day(2024, 3, 3), -300, "Three"),
    ];
    let run = SyncRun::new(txns, Vec::new(), &defaults(), options(false, false));
    let trace = drive(run, |i| i != 1);
    assert_eq!(trace.prompts, vec![0, 1, 2]);
    let created: Vec<usize> = trace.creates.iter().map(|(i, _)| *i).collect();
    assert_eq!(created, vec![0, 2]);
}

#[test]
fn fuzzy_duplicate_is_skipped_others_go_on() {
    let txns = vec![
        txn("a", day(2024, 1, 10), -2000, "Lunch"),
        txn("b", day(2024, 1, 20), -3000, "Dinner"),
    ];
    let snapshot = vec![RemoteExpense {
        id: Some(9),
        date: Some(day(2024, 1, 11)),
        cost: Some("20.00".to_string()),
        description: Some("Lunch with friends".to_string()),
        details: None,
    }];
    let run = SyncRun::new(txns, snapshot, &defaults(), options(true, false));
    let trace = drive(run, |_| true);
    let created: Vec<usize> = trace.creates.iter().map(|(i, _)| *i).collect();
    assert_eq!(created, vec![1]);
    assert_eq!(trace.creates[0].1.cost, "30.00");
}

#[test]
fn limit_counts_candidates_before_duplicates() {
    let txns = vec![
        txn("a", day(2024, 1, 10), -2000, "Lunch"),
        txn("b", day(2024, 1, 20), -3000, "Dinner"),
    ];
    let snapshot = vec![RemoteExpense {
        id: None,
        date: None,
        cost: None,
        description: None,
        details: Some("source:a".to_string()),
    }];
    let mut criteria = defaults();
    criteria.limit = Some(1);
    let run = SyncRun::new(txns, snapshot, &criteria, options(true, false));
    assert_eq!(run.candidate_count(), 1);
    let trace = drive(run, |_| true);
    assert!(trace.creates.is_empty());
}

#[test]
fn proceed_while_waiting_asks_again() {
    let mut run = SyncRun::new(market(), Vec::new(), &defaults(), options(false, false));
    assert_eq!(run.step(SyncEvent::Proceed), SyncAction::Confirm { index: 0 });
    assert_eq!(run.step(SyncEvent::Proceed), SyncAction::Confirm { index: 0 });
    assert!(matches!(run.step(SyncEvent::Answer(true)), SyncAction::Create { index: 0, .. }));
    assert_eq!(run.step(SyncEvent::Proceed), SyncAction::Finish);
    assert_eq!(run.step(SyncEvent::Proceed), SyncAction::Finish);
}

#[test]
fn empty_export_finishes_at_once() {
    let mut run = SyncRun::new(Vec::new(), Vec::new(), &defaults(), options(false, false));
    assert_eq!(run.step(SyncEvent::Proceed), SyncAction::Finish);
}

#[test]
fn transaction_lookup_by_index() {
    let run = SyncRun::new(market(), Vec::new(), &defaults(), options(false, false));
    assert_eq!(run.transaction(0).map(|t| t.id.as_str()), Some("m1"));
    assert!(run.transaction(1).is_none());
}

fn twins() -> Vec<Transaction> {
    vec![
        txn("a", day(2024, 2, 1), -1500, "Taxi"),
        txn("b", day(2024, 2, 1), -1550, "Taxi back"),
        txn("c", day(2024, 2, 9), -1500, "Taxi"),
    ]
}

#[test]
fn snapshot_stays_as_fetched_by_default() {
    let run = SyncRun::new(twins(), Vec::new(), &defaults(), options(true, false));
    let trace = drive(run, |_| true);
    let created: Vec<usize> = trace.creates.iter().map(|(i, _)| *i).collect();
    assert_eq!(created, vec![0, 1, 2]);
}

#[test]
fn refreshed_snapshot_sees_expenses_created_in_the_run() {
    let mut opts = options(true, false);
    opts.refresh_snapshot = true;
    let run = SyncRun::new(twins(), Vec::new(), &defaults(), opts);
    let trace = drive(run, |_| true);
    let created: Vec<usize> = trace.creates.iter().map(|(i, _)| *i).collect();
    assert_eq!(created, vec![0, 2]);
}

#[test]
fn failed_create_is_not_added_to_the_snapshot() {
    let mut opts = options(true, false);
    opts.refresh_snapshot = true;
    let run = SyncRun::new(twins(), Vec::new(), &defaults(), opts);
    let trace = drive_with(run, |_| true, |i| i != 0);
    let created: Vec<usize> = trace.creates.iter().map(|(i, _)| *i).collect();
    assert_eq!(created, vec![0, 1, 2]);
}

#[test]
fn failed_create_does_not_stop_the_run() {
    let run = SyncRun::new(twins(), Vec::new(), &defaults(), options(false, false));
    let trace = drive_with(run, |_| true, |_| false);
    assert_eq!(trace.prompts, vec![0, 1, 2]);
    assert_eq!(trace.creates.len(), 3);
}

#[test]
fn refresh_adds_one_record_per_success() {
    let mut opts = options(true, false);
    opts.refresh_snapshot = true;
    let mut run = SyncRun::new(market(), Vec::new(), &defaults(), opts);
    assert!(matches!(run.step(SyncEvent::Proceed), SyncAction::Create { index: 0, .. }));
    assert_eq!(run.snapshot_len(), 0);
    assert_eq!(run.step(SyncEvent::Created(true)), SyncAction::Finish);
    assert_eq!(run.snapshot_len(), 1);
    assert_eq!(run.step(SyncEvent::Created(true)), SyncAction::Finish);
    assert_eq!(run.snapshot_len(), 1);
}
