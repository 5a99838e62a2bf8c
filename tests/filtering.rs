use splitwise::calendar::Date;
use splitwise::filter::{filter_transactions, passes_filter, SyncFilterCriteria};
use splitwise::pattern::build_regex_smartcase;
use splitwise::transaction::Transaction;

fn day(y: i32, m: u32, d: u32) -> Date {
    Date::from_ymd(y, m, d).unwrap()
}

fn txn(id: &str, date: Date, description: &str, account: &str, is_expense: bool) -> Transaction {
    Transaction {
        id: id.to_string(),
        date,
        amount_cents: if is_expense { -1000 } else { 1000 },
        description: description.to_string(),
        account_name: account.to_string(),
        is_expense,
    }
}

fn everything() -> SyncFilterCriteria {
    SyncFilterCriteria {
        after: None,
        before: None,
        include_income: false,
        account: None,
        description: None,
        limit: None,
    }
}

fn sample() -> Vec<Transaction> {
    vec![
        txn("a", day(2024, 1, 1), "Coffee shop", "Checking", true),
        txn("b", day(2024, 1, 2), "Salary", "Checking", false),
        txn("c", day(2024, 1, 3), "coffee beans", "Card", true),
        txn("d", day(2024, 1, 4), "Market", "Checking", true),
        txn("e", day(2024, 1, 5), "Refund", "Card", false),
    ]
}

#[test]
fn default_criteria_keep_expenses_in_order() {
    assert_eq!(filter_transactions(&sample(), &everything()), vec![0, 2, 3]);
}

#[test]
fn include_income_keeps_everything() {
    let mut c = everything();
    c.include_income = true;
    assert_eq!(filter_transactions(&sample(), &c), vec![0, 1, 2, 3, 4]);
}

#[test]
fn without_income_no_income_is_kept() {
    let ts = sample();
    for i in filter_transactions(&ts, &everything()) {
        assert!(ts[i].is_expense);
    }
}

#[test]
fn date_bounds_are_inclusive() {
    let mut c = everything();
    c.include_income = true;
    c.after = Some(day(2024, 1, 2));
    c.before = Some(day(2024, 1, 4));
    assert_eq!(filter_transactions(&sample(), &c), vec![1, 2, 3]);
}

#[test]
fn limit_takes_the_first_that_pass() {
    let mut c = everything();
    c.limit = Some(2);
    assert_eq!(filter_transactions(&sample(), &c), vec![0, 2]);
    c.limit = Some(0);
    assert_eq!(filter_transactions(&sample(), &c), Vec::<usize>::new());
    c.limit = Some(10);
    assert_eq!(filter_transactions(&sample(), &c), vec![0, 2, 3]);
}

#[test]
fn limit_applies_after_the_other_tests() {
    let mut c = everything();
    c.account = Some(build_regex_smartcase("card").unwrap());
    c.limit = Some(1);
    assert_eq!(filter_transactions(&sample(), &c), vec![2]);
}

#[test]
fn description_pattern_uses_smart_case() {
    let mut c = everything();
    c.description = Some(build_regex_smartcase("coffee").unwrap());
    assert_eq!(filter_transactions(&sample(), &c), vec![0, 2]);
    c.description = Some(build_regex_smartcase("Coffee").unwrap());
    assert_eq!(filter_transactions(&sample(), &c), vec![0]);
}

#[test]
fn result_is_ordered_subsequence_within_limit() {
    let ts = sample();
    let mut c = everything();
    c.include_income = true;
    c.limit = Some(3);
    let r = filter_transactions(&ts, &c);
    assert!(r.len() <= 3);
    assert!(r.windows(2).all(|w| w[0] < w[1]));
    assert!(r.iter().all(|&i| i < ts.len()));
}

#[test]
fn empty_input_gives_empty_selection() {
    assert_eq!(filter_transactions(&[], &everything()), Vec::<usize>::new());
}

#[test]
fn passes_filter_checks_each_test() {
    let t = txn("a", day(2024, 1, 1), "Coffee shop", "Checking", true);
    let mut c = everything();
    assert!(passes_filter(&t, &c));
    c.after = Some(day(2024, 1, 2));
    assert!(!passes_filter(&t, &c));
    c.after = None;
    c.before = Some(day(2023, 12, 31));
    assert!(!passes_filter(&t, &c));
    c.before = None;
    c.account = Some(build_regex_smartcase("^card$").unwrap());
    assert!(!passes_filter(&t, &c));
}
