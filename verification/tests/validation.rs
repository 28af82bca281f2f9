use traggo_mcp::validation::{
    validate_non_negative, validate_optional_required_string, validate_optional_rfc3339,
    validate_page_size, validate_required_string, validate_rfc3339, validate_time_order,
    DEFAULT_PAGE_SIZE, MAX_PAGE_SIZE,
};

#[test]
fn accepts_rfc3339() {
    validate_rfc3339("start", "2026-01-01T12:00:00Z").expect("valid timestamp");
}

#[test]
fn rejects_invalid_rfc3339() {
    let err = validate_rfc3339("start", "2026-01-01").expect_err("invalid timestamp");
    assert!(err.to_string().contains("RFC3339"));
}

#[test]
fn rejects_backwards_range() {
    let err = validate_time_order(
        "start",
        "2026-01-02T00:00:00Z",
        "end",
        "2026-01-01T00:00:00Z",
    )
    .expect_err("invalid range");
    assert!(err.to_string().contains("before"));
}

#[test]
fn rejects_large_page_size() {
    let err = validate_page_size(Some(MAX_PAGE_SIZE + 1)).expect_err("too large");
    assert!(err.to_string().contains("page_size"));
}

#[test]
fn rfc3339_gives_the_instant() {
    let t = validate_rfc3339("start", "1970-01-01T00:00:01.5+00:00").expect("valid");
    assert_eq!((t.seconds, t.nanos), (1, 500_000_000));
    let u = validate_rfc3339("start", "1970-01-01T02:00:01.5+02:00").expect("valid");
    assert_eq!(t, u);
}

#[test]
fn rfc3339_error_quotes_the_value() {
    let err = validate_rfc3339("from", "yesterday").expect_err("invalid");
    assert_eq!(
        err.to_string(),
        "validation error: from must be an RFC3339 timestamp, got \"yesterday\""
    );
}

#[test]
fn time_order_rejects_equal_instants() {
    let err = validate_time_order(
        "start",
        "2026-01-01T10:00:00+01:00",
        "end",
        "2026-01-01T09:00:00Z",
    )
    .expect_err("same instant");
    assert_eq!(err.to_string(), "validation error: start must be before end");
}

#[test]
fn time_order_compares_fractions_and_leap_seconds() {
    validate_time_order("a", "2026-01-01T00:00:00.1Z", "b", "2026-01-01T00:00:00.2Z")
        .expect("ordered by fraction");
    validate_time_order("a", "2016-12-31T23:59:60Z", "b", "2017-01-01T00:00:00Z")
        .expect("leap second comes first");
    let err = validate_time_order("a", "2017-01-01T00:00:00Z", "b", "2016-12-31T23:59:60.5Z")
        .expect_err("after the leap second");
    assert!(err.to_string().contains("a must be before b"));
}

#[test]
fn time_order_reports_the_first_bad_timestamp() {
    let err = validate_time_order("a", "bad", "b", "worse").expect_err("both bad");
    assert!(err.to_string().starts_with("validation error: a must be"));
    let err = validate_time_order("a", "2026-01-01T00:00:00Z", "b", "worse").expect_err("end bad");
    assert!(err.to_string().starts_with("validation error: b must be"));
}

#[test]
fn page_size_defaults_and_bounds() {
    assert_eq!(validate_page_size(None).expect("default"), DEFAULT_PAGE_SIZE);
    assert_eq!(validate_page_size(Some(1)).expect("min"), 1);
    assert_eq!(validate_page_size(Some(MAX_PAGE_SIZE)).expect("max"), MAX_PAGE_SIZE);
    let err = validate_page_size(Some(0)).expect_err("zero");
    assert_eq!(err.to_string(), "validation error: page_size must be between 1 and 200");
    assert!(validate_page_size(Some(-5)).is_err());
}

#[test]
fn required_strings_reject_unicode_whitespace() {
    assert!(validate_required_string("key", "x").is_ok());
    assert!(validate_required_string("key", " x ").is_ok());
    let err = validate_required_string("key", " \t\n\u{3000}\u{a0}").expect_err("blank");
    assert_eq!(err.to_string(), "validation error: key must not be empty");
    assert!(validate_required_string("key", "").is_err());
    assert!(validate_required_string("key", "\u{200b}").is_ok());
}

#[test]
fn optional_checks_accept_absence() {
    assert!(validate_optional_required_string("new_key", None).is_ok());
    assert!(validate_optional_required_string("new_key", Some(&" ".to_string())).is_err());
    assert!(validate_optional_rfc3339("end", None).is_ok());
    assert!(validate_optional_rfc3339("end", Some(&"2026-02-03T04:05:06Z".to_string())).is_ok());
    assert!(validate_optional_rfc3339("end", Some(&"soon".to_string())).is_err());
}

#[test]
fn non_negative_rejects_only_negative_values() {
    assert!(validate_non_negative("offset", None).is_ok());
    assert!(validate_non_negative("offset", Some(0)).is_ok());
    let err = validate_non_negative("offset", Some(-1)).expect_err("negative");
    assert_eq!(err.to_string(), "validation error: offset must be non-negative");
}
