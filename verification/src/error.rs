//! The library's error type, its rendering, and the redaction of a secret
//! token from error messages.
use vstd::prelude::*;

use crate::text::{
    chars_of, contains_text, disjoint_chars, joined, lemma_replace_all_absent,
    lemma_replace_all_leaves_no_occurrence, replace_all, replace_all_chars,
};

verus! {

/// The category of an [`AppError`].
#[derive(Clone, Copy, Debug, PartialEq, Eq, Structural)]
pub enum ErrorKind {
    Config,
    Validation,
    Http,
    Graphql,
    Serialization,
}

/// Errors of the server; each carries a human-readable message.
#[derive(Debug)]
pub enum AppError {
    Config(String),
    Validation(String),
    Http(String),
    Graphql(String),
    Serialization(String),
}

/// What an [`AppError`] is: its category and its message.
pub struct ErrorModel {
    pub kind: ErrorKind,
    pub message: Seq<char>,
}

impl View for AppError {
    type V = ErrorModel;

    open spec fn view(&self) -> ErrorModel {
        match self {
            AppError::Config(m) => ErrorModel { kind: ErrorKind::Config, message: m@ },
            AppError::Validation(m) => ErrorModel { kind: ErrorKind::Validation, message: m@ },
            AppError::Http(m) => ErrorModel { kind: ErrorKind::Http, message: m@ },
            AppError::Graphql(m) => ErrorModel { kind: ErrorKind::Graphql, message: m@ },
            AppError::Serialization(m) => ErrorModel {
                kind: ErrorKind::Serialization,
                message: m@,
            },
        }
    }
}

/// A validation error with the given message.
pub open spec fn validation_error(message: Seq<char>) -> ErrorModel {
    ErrorModel { kind: ErrorKind::Validation, message }
}

/// Whether the outcome `r` of a check is the failure `expected` names,
/// or success when `expected` is `None`.
pub open spec fn check_outcome(r: Result<(), AppError>, expected: Option<ErrorModel>) -> bool {
    match r {
        Ok(_) => expected is None,
        Err(e) => expected == Some(e@),
    }
}

/// A configuration error with the given message.
pub open spec fn config_error(message: Seq<char>) -> ErrorModel {
    ErrorModel { kind: ErrorKind::Config, message }
}

/// The text that introduces a message of each kind when it is displayed.
pub open spec fn kind_prefix(kind: ErrorKind) -> Seq<char> {
    match kind {
        ErrorKind::Config => "configuration error: "@,
        ErrorKind::Validation => "validation error: "@,
        ErrorKind::Http => "http error: "@,
        ErrorKind::Graphql => "graphql error: "@,
        ErrorKind::Serialization => "serialization error: "@,
    }
}

/// How an error is displayed: its kind's prefix, then its message.
pub open spec fn display_text(e: ErrorModel) -> Seq<char> {
    kind_prefix(e.kind) + e.message
}

/// The text that stands in for a redacted token.
pub open spec fn redaction_mark() -> Seq<char> {
    "[REDACTED]"@
}

/// `message` with every occurrence of `token` replaced by the redaction
/// mark; an empty token leaves the message as it is.
pub open spec fn redacted(message: Seq<char>, token: Seq<char>) -> Seq<char> {
    if token.len() == 0 {
        message
    } else {
        replace_all(message, token, redaction_mark())
    }
}

impl AppError {
    /// The category of this error.
    pub fn kind(&self) -> (k: ErrorKind)
        ensures
            k == self@.kind,
    {
        match self {
            AppError::Config(_) => ErrorKind::Config,
            AppError::Validation(_) => ErrorKind::Validation,
            AppError::Http(_) => ErrorKind::Http,
            AppError::Graphql(_) => ErrorKind::Graphql,
            AppError::Serialization(_) => ErrorKind::Serialization,
        }
    }

    /// The error as it is shown to a user, such as
    /// `validation error: page_size must be between 1 and 200`.
    pub fn to_string(&self) -> (s: String)
        ensures
            s@ == display_text(self@),
    {
        let (prefix, message) = match self {
            AppError::Config(m) => ("configuration error: ", m),
            AppError::Validation(m) => ("validation error: ", m),
            AppError::Http(m) => ("http error: ", m),
            AppError::Graphql(m) => ("graphql error: ", m),
            AppError::Serialization(m) => ("serialization error: ", m),
        };
        let s = String::from_str(prefix);
        s.concat(message.as_str())
    }

    /// The same error with `token` redacted from its message.
    pub fn redact(self, token: &str) -> (r: AppError)
        ensures
            r@ == (ErrorModel { kind: self@.kind, message: redacted(self@.message, token@) }),
    {
        match self {
            AppError::Config(m) => AppError::Config(redact_token(m.as_str(), token)),
            AppError::Validation(m) => AppError::Validation(redact_token(m.as_str(), token)),
            AppError::Http(m) => AppError::Http(redact_token(m.as_str(), token)),
            AppError::Graphql(m) => AppError::Graphql(redact_token(m.as_str(), token)),
            AppError::Serialization(m) => AppError::Serialization(
                redact_token(m.as_str(), token),
            ),
        }
    }
}

/// `message` with every occurrence of `token` replaced by `[REDACTED]`;
/// an empty token leaves the message unchanged.
pub fn redact_token(message: &str, token: &str) -> (r: String)
    ensures
        r@ == redacted(message@, token@),
{
    if token.is_empty() {
        return String::from_str(message);
    }
    let chars = chars_of(message);
    let pattern = chars_of(token);
    replace_all_chars(&chars, &pattern, "[REDACTED]")
}

/// One error reported in a GraphQL response.
#[derive(Debug)]
pub struct GraphqlError {
    pub message: String,
}

/// The messages of `errors`, in order.
pub open spec fn error_messages(errors: Seq<GraphqlError>) -> Seq<Seq<char>> {
    errors.map_values(|e: GraphqlError| e.message@)
}

/// A single GraphQL error whose message joins the messages of `errors`
/// with `"; "`.
pub fn normalize_graphql_errors(errors: Vec<GraphqlError>) -> (r: AppError)
    ensures
        r@ == (ErrorModel {
            kind: ErrorKind::Graphql,
            message: joined(error_messages(errors@), "; "@),
        }),
{
    let ghost items = error_messages(errors@);
    let mut message = String::new();
    let n = errors.len();
    let mut i: usize = 0;
    while i < n
        invariant
            n == errors.len(),
            i <= n,
            items == error_messages(errors@),
            message@ == joined(items.take(i as int), "; "@),
        decreases n - i,
    {
        proof {
            assert(items.take(i + 1).drop_last() =~= items.take(i as int));
            assert(items.take(i + 1).last() == errors@[i as int].message@);
        }
        if i > 0 {
            message.append("; ");
        } else {
            assert(items.take(1) =~= seq![items[0]]);
            assert(message@ =~= Seq::<char>::empty());
        }
        message.append(errors[i].message.as_str());
        i = i + 1;
        assert(message@ =~= joined(items.take(i as int), "; "@));
    }
    assert(items.take(n as int) =~= items);
    AppError::Graphql(message)
}

/// A nonempty token that shares no character with `[REDACTED]` does not
/// occur anywhere in a message once it has been redacted.
pub proof fn lemma_redacted_hides_token(message: Seq<char>, token: Seq<char>)
    requires
        token.len() > 0,
        disjoint_chars(token, redaction_mark()),
    ensures
        !contains_text(redacted(message, token), token),
{
    reveal_strlit("[REDACTED]");
    lemma_replace_all_leaves_no_occurrence(message, token, redaction_mark());
}

/// A failure to reach Traggo or to read its reply, as an HTTP error whose
/// message has the token redacted; a nonempty token that shares no
/// character with the redaction mark is then nowhere in it.
pub fn transport_error(message: String, token: &str) -> (r: AppError)
    ensures
        r@ == (ErrorModel { kind: ErrorKind::Http, message: redacted(message@, token@) }),
        token@.len() > 0 && disjoint_chars(token@, redaction_mark()) ==> !contains_text(
            r@.message,
            token@,
        ),
{
    proof {
        if token@.len() > 0 && disjoint_chars(token@, redaction_mark()) {
            lemma_redacted_hides_token(message@, token@);
        }
    }
    AppError::Http(message).redact(token)
}

/// Redacting the same token a second time changes nothing, for a nonempty
/// token that shares no character with `[REDACTED]`.
pub proof fn lemma_redaction_idempotent(message: Seq<char>, token: Seq<char>)
    requires
        token.len() > 0,
        disjoint_chars(token, redaction_mark()),
    ensures
        redacted(redacted(message, token), token) == redacted(message, token),
{
    lemma_redacted_hides_token(message, token);
    lemma_replace_all_absent(redacted(message, token), token, redaction_mark());
}

/// A message in which the token does not occur is left unchanged by
/// redaction.
pub proof fn lemma_redaction_keeps_clean_text(message: Seq<char>, token: Seq<char>)
    requires
        !contains_text(message, token),
    ensures
        redacted(message, token) == message,
{
    if token.len() > 0 {
        lemma_replace_all_absent(message, token, redaction_mark());
    }
}

} // verus!
