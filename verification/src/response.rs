//! Interpretation of Traggo's replies: the HTTP status and the GraphQL
//! envelope of the response body.
use vstd::prelude::*;

use crate::error::{
    error_messages, lemma_redacted_hides_token, normalize_graphql_errors, redacted, redaction_mark,
    AppError, ErrorKind, ErrorModel, GraphqlError,
};
use crate::text::{
    chars_of, contains_text, decimal, disjoint_chars, joined, push_decimal, string_of_chars,
    trim_bounds, trimmed,
};

verus! {

/// How many characters of a response body an error message quotes.
pub const MAX_BODY_CHARS: usize = 500;

/// A GraphQL response: the data, the errors, or both.
pub struct GraphqlResponse<T> {
    pub data: Option<T>,
    pub errors: Option<Vec<GraphqlError>>,
}

/// The reason phrase registered for an HTTP status code, if any.
pub uninterp spec fn canonical_reason(code: u16) -> Option<Seq<char>>;

/// `reqwest::StatusCode::from_u16` followed by `canonical_reason`; a code
/// outside 100..=999 has no reason. The outcome is named by
/// `canonical_reason`.
#[verifier::external_body]
fn status_reason(code: u16) -> (r: Option<&'static str>)
    ensures
        match canonical_reason(code) {
            Some(t) => r matches Some(x) && x@ == t,
            None => r is None,
        },
{
    match reqwest::StatusCode::from_u16(code) {
        Ok(status) => status.canonical_reason(),
        Err(_) => None,
    }
}

/// How an HTTP status is displayed: its code and its reason phrase.
pub open spec fn status_text(code: u16) -> Seq<char> {
    decimal(code as nat) + " "@ + match canonical_reason(code) {
        Some(r) => r,
        None => "<unknown status code>"@,
    }
}

/// A response body as an error message quotes it: trimmed, and cut to
/// [`MAX_BODY_CHARS`] characters followed by `...` when longer.
pub open spec fn quoted_body(body: Seq<char>) -> Seq<char> {
    let t = trimmed(body);
    if t.len() <= MAX_BODY_CHARS {
        t
    } else {
        t.take(MAX_BODY_CHARS as int) + "..."@
    }
}

/// Whether an HTTP status code reports success (200 to 299).
pub open spec fn is_success_status(code: u16) -> bool {
    200 <= code < 300
}

/// The body, trimmed and shortened to at most 500 characters plus `...`.
pub fn trim_body(body: &str) -> (r: String)
    ensures
        r@ == quoted_body(body@),
{
    let chars = chars_of(body);
    let (a, b) = trim_bounds(&chars);
    if b - a <= MAX_BODY_CHARS {
        return string_of_chars(&chars, a, b);
    }
    let mut out = string_of_chars(&chars, a, a + MAX_BODY_CHARS);
    out.append("...");
    proof {
        assert(chars@.subrange(a as int, a + MAX_BODY_CHARS) =~= trimmed(body@).take(
            MAX_BODY_CHARS as int,
        ));
    }
    out
}

/// The status as it is displayed, such as `404 Not Found`.
pub fn status_display(code: u16) -> (r: String)
    ensures
        r@ == status_text(code),
{
    let mut out = String::new();
    push_decimal(&mut out, code as u64);
    out.append(" ");
    match status_reason(code) {
        Some(reason) => out.append(reason),
        None => out.append("<unknown status code>"),
    }
    out
}

/// Accepts a success status; any other fails with an HTTP error that
/// quotes the status and the body.
pub fn normalize_http_status(status: u16, body: &str) -> (r: Result<(), AppError>)
    ensures
        is_success_status(status) ==> r is Ok,
        !is_success_status(status) ==> (r matches Err(e) && e@ == (ErrorModel {
            kind: ErrorKind::Http,
            message: "Traggo returned HTTP "@ + status_text(status) + ": "@ + quoted_body(body@),
        })),
{
    if 200 <= status && status < 300 {
        return Ok(());
    }
    let message = String::from_str("Traggo returned HTTP ").concat(status_display(status).as_str()).concat(
        ": ",
    ).concat(trim_body(body).as_str());
    Err(AppError::Http(message))
}

/// The data of a GraphQL response. Reported errors win over data; a
/// response with neither fails with `missing data in GraphQL response`.
pub fn normalize_graphql_response<T>(response: GraphqlResponse<T>) -> (r: Result<T, AppError>)
    ensures
        match response.errors {
            Some(es) if es.len() > 0 => r matches Err(e) && e@ == (ErrorModel {
                kind: ErrorKind::Graphql,
                message: joined(error_messages(es@), "; "@),
            }),
            _ => match response.data {
                Some(d) => r == Ok::<T, AppError>(d),
                None => r matches Err(e) && e@ == (ErrorModel {
                    kind: ErrorKind::Graphql,
                    message: "missing data in GraphQL response"@,
                }),
            },
        },
{
    let GraphqlResponse { data, errors } = response;
    if let Some(errors) = errors {
        if errors.len() > 0 {
            return Err(normalize_graphql_errors(errors));
        }
    }
    match data {
        Some(d) => Ok(d),
        None => Err(AppError::Graphql(String::from_str("missing data in GraphQL response"))),
    }
}


/// What a GraphQL envelope comes to: its data, unless it reports errors,
/// which win; neither fails with `missing data in GraphQL response`.
pub open spec fn envelope_outcome<T>(response: GraphqlResponse<T>) -> Result<T, ErrorModel> {
    let reported = match response.errors {
        Some(es) => es@.len() > 0,
        None => false,
    };
    if reported {
        Err(
            ErrorModel {
                kind: ErrorKind::Graphql,
                message: joined(error_messages(response.errors.unwrap()@), "; "@),
            },
        )
    } else {
        match response.data {
            Some(d) => Ok(d),
            None => Err(
                ErrorModel { kind: ErrorKind::Graphql, message: "missing data in GraphQL response"@ },
            ),
        }
    }
}

/// What Traggo's reply comes to before the token is redacted: a failing
/// status first, quoting the body; then a body that could not be read as
/// a GraphQL response, with the reader's message in `parsed`; then the
/// envelope.
pub open spec fn reply_outcome<T>(
    status: u16,
    body: Seq<char>,
    parsed: Result<GraphqlResponse<T>, String>,
) -> Result<T, ErrorModel> {
    if !is_success_status(status) {
        Err(
            ErrorModel {
                kind: ErrorKind::Http,
                message: "Traggo returned HTTP "@ + status_text(status) + ": "@ + quoted_body(body),
            },
        )
    } else {
        match parsed {
            Err(m) => Err(ErrorModel { kind: ErrorKind::Serialization, message: m@ }),
            Ok(response) => envelope_outcome(response),
        }
    }
}

/// An error with every occurrence of `token` in its message redacted.
pub open spec fn redacted_error(e: ErrorModel, token: Seq<char>) -> ErrorModel {
    ErrorModel { kind: e.kind, message: redacted(e.message, token) }
}

/// The data of Traggo's reply to a request, or the error it comes to with
/// the token redacted. `parsed` is the body read as a GraphQL response, or
/// the reader's message when it could not be read; it is looked at only
/// when the status reports success. No error returned holds a nonempty
/// token that shares no character with the redaction mark.
pub fn interpret_reply<T>(
    status: u16,
    body: &str,
    parsed: Result<GraphqlResponse<T>, String>,
    token: &str,
) -> (r: Result<T, AppError>)
    ensures
        match reply_outcome(status, body@, parsed) {
            Ok(d) => r == Ok::<T, AppError>(d),
            Err(e) => r matches Err(x) && x@ == redacted_error(e, token@),
        },
        token@.len() > 0 && disjoint_chars(token@, redaction_mark()) ==> (r matches Err(x)
            ==> !contains_text(x@.message, token@)),
{
    let outcome = match normalize_http_status(status, body) {
        Err(e) => Err(e),
        Ok(()) => match parsed {
            Err(m) => Err(AppError::Serialization(m)),
            Ok(response) => normalize_graphql_response(response),
        },
    };
    match outcome {
        Ok(d) => Ok(d),
        Err(e) => {
            proof {
                if token@.len() > 0 && disjoint_chars(token@, redaction_mark()) {
                    lemma_redacted_hides_token(e@.message, token@);
                }
            }
            Err(e.redact(token))
        },
    }
}

/// A quoted body is never longer than [`MAX_BODY_CHARS`] characters plus
/// the three dots that mark a cut, and a body that fits is quoted whole,
/// trimmed.
pub proof fn lemma_quoted_body_bounded(body: Seq<char>)
    ensures
        quoted_body(body).len() <= MAX_BODY_CHARS + 3,
        trimmed(body).len() <= MAX_BODY_CHARS ==> quoted_body(body) == trimmed(body),
{
    reveal_strlit("...");
}

} // verus!
