use splitwise::calendar::Date;

#[test]
fn from_ymd_numbers_days_from_year_one() {
    assert_eq!(Date::from_ymd(1, 1, 1).unwrap().days_from_ce(), 1);
    assert_eq!(Date::from_ymd(2, 1, 1).unwrap().days_from_ce(), 366);
    assert_eq!(Date::from_ymd(1970, 1, 1).unwrap().days_from_ce(), 719_163);
    assert_eq!(Date::from_ymd(0, 1, 1).unwrap().days_from_ce(), -365);
}

#[test]
fn from_ymd_rejects_days_the_calendar_lacks() {
    assert!(Date::from_ymd(2015, 2, 29).is_none());
    assert!(Date::from_ymd(2015, 0, 14).is_none());
    assert!(Date::from_ymd(2015, 13, 1).is_none());
    assert!(Date::from_ymd(2023, 4, 31).is_none());
    assert!(Date::from_ymd(400000, 1, 1).is_none());
    assert!(Date::from_ymd(2024, 2, 29).is_some());
}

#[test]
fn days_apart_is_symmetric() {
    let a = Date::from_ymd(2024, 1, 10).unwrap();
    let b = Date::from_ymd(2024, 3, 1).unwrap();
    assert_eq!(a.days_apart(&b), 51);
    assert_eq!(b.days_apart(&a), 51);
    assert_eq!(a.days_apart(&a), 0);
    let c = Date::from_ymd(2023, 12, 31).unwrap();
    let d = Date::from_ymd(2024, 1, 1).unwrap();
    assert_eq!(c.days_apart(&d), 1);
}
