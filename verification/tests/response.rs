use serde_json::Value;
use traggo_mcp::error::GraphqlError;
use traggo_mcp::response::{
    interpret_reply, normalize_graphql_response, normalize_http_status, status_display, trim_body,
    GraphqlResponse,
};

fn ok_value() -> Value {
    serde_json::from_str("{\"ok\": true}").expect("json")
}

#[test]
fn returns_data_when_response_is_successful() {
    let data = ok_value();
    let response = GraphqlResponse {
        data: Some(data.clone()),
        errors: None,
    };
    assert_eq!(normalize_graphql_response(response).expect("data"), data);
}

#[test]
fn returns_graphql_errors_before_data() {
    let response: GraphqlResponse<Value> = GraphqlResponse {
        data: Some(ok_value()),
        errors: Some(vec![GraphqlError {
            message: "token bad".into(),
        }]),
    };
    let err = normalize_graphql_response(response).expect_err("error wins");
    assert!(err.to_string().contains("token bad"));
}

#[test]
fn rejects_missing_data() {
    let response: GraphqlResponse<Value> = GraphqlResponse {
        data: None,
        errors: None,
    };
    let err = normalize_graphql_response(response).expect_err("missing data");
    assert!(err.to_string().contains("missing data"));
}

#[test]
fn empty_error_list_does_not_hide_data() {
    let response = GraphqlResponse {
        data: Some(3u8),
        errors: Some(Vec::new()),
    };
    assert_eq!(normalize_graphql_response(response).expect("data"), 3);
    let response: GraphqlResponse<u8> = GraphqlResponse {
        data: None,
        errors: Some(Vec::new()),
    };
    assert_eq!(
        normalize_graphql_response(response).expect_err("none").to_string(),
        "graphql error: missing data in GraphQL response"
    );
}

#[test]
fn success_statuses_pass() {
    assert!(normalize_http_status(200, "ignored").is_ok());
    assert!(normalize_http_status(204, "").is_ok());
    assert!(normalize_http_status(299, "").is_ok());
}

#[test]
fn failed_status_quotes_status_and_trimmed_body() {
    let err = normalize_http_status(404, "  page missing \n").expect_err("404");
    assert_eq!(
        err.to_string(),
        "http error: Traggo returned HTTP 404 Not Found: page missing"
    );
    let err = normalize_http_status(301, "").expect_err("redirect");
    assert_eq!(
        err.to_string(),
        "http error: Traggo returned HTTP 301 Moved Permanently: "
    );
}

#[test]
fn unknown_status_has_a_placeholder_reason() {
    assert_eq!(status_display(599), "599 <unknown status code>");
    assert_eq!(status_display(500), "500 Internal Server Error");
}

#[test]
fn long_bodies_are_cut() {
    let body = format!("  {}  ", "é".repeat(600));
    let trimmed = trim_body(&body);
    assert_eq!(trimmed.chars().count(), 503);
    assert!(trimmed.ends_with("é..."));
    let exact = "x".repeat(500);
    assert_eq!(trim_body(&exact), exact);
    assert_eq!(trim_body(" \u{2003} "), "");
}

#[test]
fn interprets_a_successful_reply() {
    let parsed = Ok(GraphqlResponse { data: Some(7_i64), errors: None });
    assert_eq!(interpret_reply(200, "{}", parsed, "secret").unwrap(), 7);
}

#[test]
fn failing_status_wins_and_is_redacted() {
    let parsed: Result<GraphqlResponse<i64>, String> = Err("bad json".into());
    let err = interpret_reply(500, "token secret leaked", parsed, "secret").unwrap_err();
    assert_eq!(
        err.to_string(),
        "http error: Traggo returned HTTP 500 Internal Server Error: token [REDACTED] leaked"
    );
}

#[test]
fn unreadable_body_is_a_serialization_error() {
    let parsed: Result<GraphqlResponse<i64>, String> = Err("expected value secret".into());
    let err = interpret_reply(200, "oops", parsed, "secret").unwrap_err();
    assert_eq!(err.to_string(), "serialization error: expected value [REDACTED]");
}

#[test]
fn reported_errors_are_redacted() {
    let parsed: Result<GraphqlResponse<i64>, String> = Ok(GraphqlResponse {
        data: Some(1),
        errors: Some(vec![GraphqlError { message: "bad secret".into() }]),
    });
    let err = interpret_reply(200, "{}", parsed, "secret").unwrap_err();
    assert_eq!(err.to_string(), "graphql error: bad [REDACTED]");
}
