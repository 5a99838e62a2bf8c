use splitwise::calendar::Date;
use splitwise::model::shared::{ErrorForbiddenOrNotFound, ErrorsBase};
use splitwise::remote::{
    classify_status, create_outcome, draft_expense, join_errors, with_trailing_slash,
    ResponseClass,
};
use splitwise::text::join;
use splitwise::transaction::Transaction;

fn errors(entries: &[(&str, &[&str])]) -> Vec<(String, Vec<String>)> {
    entries
        .iter()
        .map(|(k, v)| (k.to_string(), v.iter().map(|s| s.to_string()).collect()))
        .collect()
}

#[test]
fn join_errors_writes_each_field() {
    let e = errors(&[("cost", &["is missing", "must be a number"]), ("base", &["failed"])]);
    assert_eq!(join_errors(&e), "cost: [is missing; must be a number];base: [failed];");
    assert_eq!(join_errors(&[]), "");
    assert_eq!(join_errors(&errors(&[("date", &[])])), "date: [];");
}

#[test]
fn create_outcome_fails_on_listed_errors() {
    assert_eq!(create_outcome(&None), Ok(()));
    assert_eq!(create_outcome(&Some(Vec::new())), Ok(()));
    let e = errors(&[("base", &["Invalid group"])]);
    assert_eq!(create_outcome(&Some(e)), Err("base: [Invalid group];".to_string()));
}

#[test]
fn status_classes() {
    assert_eq!(classify_status(200), ResponseClass::Success);
    assert_eq!(classify_status(401), ResponseClass::Unauthorized);
    assert_eq!(classify_status(403), ResponseClass::ForbiddenOrNotFound);
    assert_eq!(classify_status(404), ResponseClass::ForbiddenOrNotFound);
    assert_eq!(classify_status(500), ResponseClass::Unexpected);
    assert_eq!(classify_status(201), ResponseClass::Unexpected);
}

#[test]
fn trailing_slash_added_once() {
    assert_eq!(with_trailing_slash("https://example.com/api"), "https://example.com/api/");
    assert_eq!(with_trailing_slash("https://example.com/api/"), "https://example.com/api/");
    assert_eq!(with_trailing_slash(""), "/");
}

#[test]
fn forbidden_message_joins_errors() {
    let e = ErrorForbiddenOrNotFound {
        errors: ErrorsBase { base: vec!["Forbidden".to_string(), "Try again".to_string()] },
    };
    assert_eq!(e.message(), "Forbidden; Try again");
    assert_eq!(ErrorForbiddenOrNotFound::default().message(), "");
}

#[test]
fn join_separates_parts() {
    let parts = vec!["a".to_string(), "b".to_string(), "c".to_string()];
    assert_eq!(join(&parts, ", "), "a, b, c");
    assert_eq!(join(&parts[..1], ", "), "a");
    assert_eq!(join(&[], ", "), "");
}

#[test]
fn draft_for_income_has_negative_cost() {
    let t = Transaction {
        id: "r7".to_string(),
        date: Date::from_ymd(2024, 5, 6).unwrap(),
        amount_cents: 1250,
        description: "Refund".to_string(),
        account_name: "Card".to_string(),
        is_expense: false,
    };
    let d = draft_expense(&t, 3);
    assert_eq!(d.cost, "-12.50");
    assert_eq!(d.details, "source:r7");
    assert_eq!(d.group_id, 3);
}
