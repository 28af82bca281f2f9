//! Checks on the arguments of the tools: required strings, RFC 3339
//! timestamps and their order, page sizes and non-negative numbers.
use vstd::prelude::*;

use crate::error::{check_outcome, validation_error, AppError, ErrorModel};
use crate::text::{is_blank, str_is_blank};

verus! {

/// The page size used when a request names none.
pub const DEFAULT_PAGE_SIZE: i64 = 50;

/// The largest page size a request may ask for.
pub const MAX_PAGE_SIZE: i64 = 200;

/// An instant read from an RFC 3339 timestamp: whole seconds since the Unix
/// epoch and the nanoseconds within that second (at least one billion
/// during a leap second).
#[derive(Clone, Copy, Debug, PartialEq, Eq, Structural)]
pub struct Timestamp {
    pub seconds: i64,
    pub nanos: u32,
}

/// The instant that an RFC 3339 timestamp denotes, as seconds since the
/// Unix epoch and nanoseconds, or `None` when the text is not one.
pub uninterp spec fn rfc3339_instant(text: Seq<char>) -> Option<(i64, u32)>;

/// The `Debug` rendering of a string: quoted, with special characters
/// escaped.
pub uninterp spec fn debug_text(text: Seq<char>) -> Seq<char>;

/// `chrono::DateTime::parse_from_rfc3339`, read as seconds since the epoch
/// (`timestamp`) and nanoseconds (`timestamp_subsec_nanos`). Nothing is
/// claimed of which texts parse; the result is named by `rfc3339_instant`.
#[verifier::external_body]
fn parse_rfc3339(value: &str) -> (r: Option<Timestamp>)
    ensures
        match rfc3339_instant(value@) {
            Some(p) => r == Some(Timestamp { seconds: p.0, nanos: p.1 }),
            None => r is None,
        },
{
    match chrono::DateTime::parse_from_rfc3339(value) {
        Ok(t) => Some(Timestamp { seconds: t.timestamp(), nanos: t.timestamp_subsec_nanos() }),
        Err(_) => None,
    }
}

/// `format!("{:?}", value)`: the `Debug` rendering of a string, named by
/// `debug_text`.
#[verifier::external_body]
fn debug_quoted(value: &str) -> (r: String)
    ensures
        r@ == debug_text(value@),
{
    format!("{:?}", value)
}

/// Whether instant `a` comes strictly before instant `b`.
pub open spec fn instant_before(a: (i64, u32), b: (i64, u32)) -> bool {
    a.0 < b.0 || (a.0 == b.0 && a.1 < b.1)
}

/// The failure of a required string: one that holds only whitespace.
pub open spec fn required_string_error(name: Seq<char>, value: Seq<char>) -> Option<ErrorModel> {
    if is_blank(value) {
        Some(validation_error(name + " must not be empty"@))
    } else {
        None
    }
}

/// The failure of a text that must be an RFC 3339 timestamp.
pub open spec fn rfc3339_error(name: Seq<char>, value: Seq<char>) -> Option<ErrorModel> {
    if rfc3339_instant(value) is None {
        Some(
            validation_error(
                name + " must be an RFC3339 timestamp, got "@ + debug_text(value),
            ),
        )
    } else {
        None
    }
}

/// The failure of a pair of timestamps that must both parse, the first
/// strictly before the second.
pub open spec fn time_order_error(
    start_name: Seq<char>,
    start: Seq<char>,
    end_name: Seq<char>,
    end: Seq<char>,
) -> Option<ErrorModel> {
    if rfc3339_error(start_name, start) is Some {
        rfc3339_error(start_name, start)
    } else if rfc3339_error(end_name, end) is Some {
        rfc3339_error(end_name, end)
    } else if !instant_before(rfc3339_instant(start)->0, rfc3339_instant(end)->0) {
        Some(validation_error(start_name + " must be before "@ + end_name))
    } else {
        None
    }
}

/// The failure of an optional number that must not be negative.
pub open spec fn non_negative_error(name: Seq<char>, value: Option<i64>) -> Option<ErrorModel> {
    match value {
        Some(v) if v < 0 => Some(validation_error(name + " must be non-negative"@)),
        _ => None,
    }
}

/// The failure of a page size outside 1 to [`MAX_PAGE_SIZE`].
pub open spec fn page_size_error(page_size: Option<i64>) -> Option<ErrorModel> {
    if !(1 <= requested_page_size(page_size) <= MAX_PAGE_SIZE) {
        Some(validation_error("page_size must be between 1 and 200"@))
    } else {
        None
    }
}

/// The failure of an optional text that, when present, must be an RFC 3339
/// timestamp.
pub open spec fn optional_rfc3339_error(name: Seq<char>, value: Option<String>) -> Option<
    ErrorModel,
> {
    match value {
        Some(v) => rfc3339_error(name, v@),
        None => None,
    }
}

/// The failure of an optional text that, when present, must not be blank.
pub open spec fn optional_required_string_error(name: Seq<char>, value: Option<String>) -> Option<
    ErrorModel,
> {
    match value {
        Some(v) => required_string_error(name, v@),
        None => None,
    }
}

/// The page size a request asks for, with the default filled in.
pub open spec fn requested_page_size(page_size: Option<i64>) -> i64 {
    match page_size {
        Some(p) => p,
        None => DEFAULT_PAGE_SIZE,
    }
}

/// Fails with a validation error when `value` is empty or only whitespace.
pub fn validate_required_string(name: &str, value: &str) -> (r: Result<(), AppError>)
    ensures
        check_outcome(r, required_string_error(name@, value@)),
{
    if str_is_blank(value) {
        let message = String::from_str(name).concat(" must not be empty");
        return Err(AppError::Validation(message));
    }
    Ok(())
}

/// Like [`validate_required_string`] for a value that may be absent;
/// absence is accepted.
pub fn validate_optional_required_string(name: &str, value: Option<&String>) -> (r: Result<
    (),
    AppError,
>)
    ensures
        check_outcome(
            r,
            match value {
                Some(v) => required_string_error(name@, v@),
                None => None,
            },
        ),
{
    if let Some(value) = value {
        validate_required_string(name, value.as_str())?;
    }
    Ok(())
}

/// Reads `value` as an RFC 3339 timestamp, or fails with a validation error
/// that quotes it.
pub fn validate_rfc3339(name: &str, value: &str) -> (r: Result<Timestamp, AppError>)
    ensures
        match rfc3339_instant(value@) {
            Some(p) => r == Ok::<Timestamp, AppError>(Timestamp { seconds: p.0, nanos: p.1 }),
            None => r matches Err(e) && Some(e@) == rfc3339_error(name@, value@),
        },
{
    match parse_rfc3339(value) {
        Some(t) => Ok(t),
        None => {
            let message = String::from_str(name).concat(" must be an RFC3339 timestamp, got ");
            let quoted = debug_quoted(value);
            Err(AppError::Validation(message.concat(quoted.as_str())))
        },
    }
}

/// Like [`validate_rfc3339`] for a value that may be absent; absence is
/// accepted.
pub fn validate_optional_rfc3339(name: &str, value: Option<&String>) -> (r: Result<(), AppError>)
    ensures
        check_outcome(
            r,
            match value {
                Some(v) => rfc3339_error(name@, v@),
                None => None,
            },
        ),
{
    if let Some(value) = value {
        validate_rfc3339(name, value.as_str())?;
    }
    Ok(())
}

/// Both texts must be RFC 3339 timestamps, and `start` must come strictly
/// before `end`.
pub fn validate_time_order(start_name: &str, start: &str, end_name: &str, end: &str) -> (r: Result<
    (),
    AppError,
>)
    ensures
        check_outcome(r, time_order_error(start_name@, start@, end_name@, end@)),
{
    let s = validate_rfc3339(start_name, start)?;
    let e = validate_rfc3339(end_name, end)?;
    if !(s.seconds < e.seconds || (s.seconds == e.seconds && s.nanos < e.nanos)) {
        let message = String::from_str(start_name).concat(" must be before ").concat(end_name);
        return Err(AppError::Validation(message));
    }
    Ok(())
}

/// The page size to use: the requested one, or the default when none is
/// given; it must lie between 1 and [`MAX_PAGE_SIZE`].
pub fn validate_page_size(page_size: Option<i64>) -> (r: Result<i64, AppError>)
    ensures
        1 <= requested_page_size(page_size) <= MAX_PAGE_SIZE ==> r == Ok::<i64, AppError>(
            requested_page_size(page_size),
        ),
        !(1 <= requested_page_size(page_size) <= MAX_PAGE_SIZE) ==> (r matches Err(e) && e@
            == validation_error("page_size must be between 1 and 200"@)),
{
    let page_size = match page_size {
        Some(p) => p,
        None => DEFAULT_PAGE_SIZE,
    };
    if !(1 <= page_size && page_size <= MAX_PAGE_SIZE) {
        return Err(AppError::Validation(String::from_str("page_size must be between 1 and 200")));
    }
    Ok(page_size)
}

/// Fails with a validation error when the value is present and negative.
pub fn validate_non_negative(name: &str, value: Option<i64>) -> (r: Result<(), AppError>)
    ensures
        check_outcome(r, non_negative_error(name@, value)),
{
    if let Some(value) = value {
        if value < 0 {
            let message = String::from_str(name).concat(" must be non-negative");
            return Err(AppError::Validation(message));
        }
    }
    Ok(())
}

} // verus!
