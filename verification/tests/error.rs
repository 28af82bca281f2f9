use traggo_mcp::error::{
    normalize_graphql_errors, redact_token, transport_error, AppError, ErrorKind, GraphqlError,
};

#[test]
fn normalizes_graphql_error_messages() {
    let err = normalize_graphql_errors(vec![GraphqlError {
        message: "not authorized".into(),
    }]);
    assert_eq!(err.to_string(), "graphql error: not authorized");
}

#[test]
fn redacts_token_from_error() {
    assert_eq!(
        redact_token("Authorization traggo abc123 failed", "abc123"),
        "Authorization traggo [REDACTED] failed"
    );
}

#[test]
fn joins_several_graphql_errors_in_order() {
    let err = normalize_graphql_errors(vec![
        GraphqlError { message: "first".into() },
        GraphqlError { message: "second".into() },
        GraphqlError { message: "third".into() },
    ]);
    assert_eq!(err.kind(), ErrorKind::Graphql);
    assert_eq!(err.to_string(), "graphql error: first; second; third");
}

#[test]
fn no_graphql_errors_give_an_empty_message() {
    let err = normalize_graphql_errors(Vec::new());
    assert_eq!(err.to_string(), "graphql error: ");
}

#[test]
fn redacts_every_occurrence_left_to_right() {
    assert_eq!(redact_token("abcabcab", "abc"), "[REDACTED][REDACTED]ab");
    assert_eq!(redact_token("aaaa", "aa"), "[REDACTED][REDACTED]");
    assert_eq!(redact_token("aaa", "aa"), "[REDACTED]a");
    assert_eq!(redact_token("tök€n tök€n", "ök€"), "t[REDACTED]n t[REDACTED]n");
}

#[test]
fn empty_token_leaves_message_alone() {
    assert_eq!(redact_token("nothing to hide", ""), "nothing to hide");
}

#[test]
fn token_absent_leaves_message_alone() {
    assert_eq!(redact_token("short", "a much longer token"), "short");
    assert_eq!(redact_token("", "abc"), "");
}

#[test]
fn redacted_message_no_longer_holds_token() {
    let token = "s3cr3t-t0k3n";
    let once = redact_token("s3cr3t-t0k3ns3cr3t-t0k3n and s3cr3t-t0k3n", token);
    assert!(!once.contains(token));
    assert_eq!(redact_token(&once, token), once);
}

#[test]
fn redact_keeps_the_kind_of_every_error() {
    let cases = vec![
        (AppError::Config("x tok".into()), "configuration error: x [REDACTED]"),
        (AppError::Validation("x tok".into()), "validation error: x [REDACTED]"),
        (AppError::Http("x tok".into()), "http error: x [REDACTED]"),
        (AppError::Graphql("x tok".into()), "graphql error: x [REDACTED]"),
        (AppError::Serialization("x tok".into()), "serialization error: x [REDACTED]"),
    ];
    for (err, expected) in cases {
        let kind = err.kind();
        let redacted = err.redact("tok");
        assert_eq!(redacted.kind(), kind);
        assert_eq!(redacted.to_string(), expected);
    }
}

#[test]
fn transport_errors_are_redacted() {
    let err = transport_error("connect to secret failed".into(), "secret");
    assert_eq!(err.kind(), ErrorKind::Http);
    assert_eq!(err.to_string(), "http error: connect to [REDACTED] failed");
}
