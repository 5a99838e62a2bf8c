use splitwise::pattern::{build_regex_smartcase, has_uppercase};

#[test]
fn uppercase_pattern_is_case_sensitive() {
    let p = build_regex_smartcase("Coffee").unwrap();
    assert!(!p.is_case_insensitive());
    assert!(p.is_match("Coffee"));
    assert!(!p.is_match("coffee"));
}

#[test]
fn lowercase_pattern_ignores_case() {
    let p = build_regex_smartcase("coffee").unwrap();
    assert!(p.is_case_insensitive());
    assert!(p.is_match("Coffee"));
    assert!(p.is_match("coffee"));
    assert!(p.is_match("Morning COFFEE shop"));
    assert!(!p.is_match("tea"));
}

#[test]
fn pattern_keeps_its_source() {
    let p = build_regex_smartcase("^Check").unwrap();
    assert_eq!(p.source(), "^Check");
    assert!(p.is_match("Checking"));
    assert!(!p.is_match("My Checking"));
}

#[test]
fn invalid_pattern_is_an_error() {
    let e = build_regex_smartcase("(unclosed").unwrap_err();
    assert_eq!(e.pattern, "(unclosed");
    assert!(!e.message.is_empty());
}

#[test]
fn has_uppercase_looks_for_ascii_capitals() {
    assert!(has_uppercase("aBc"));
    assert!(!has_uppercase("abc"));
    assert!(!has_uppercase(""));
    assert!(!has_uppercase("éà.*"));
}
