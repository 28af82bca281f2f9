//! The variables of the GraphQL operations sent to Traggo and the data
//! they return, as plain values.
use vstd::prelude::*;

verus! {

/// A tag on a time span: a key and a value.
#[derive(Debug)]
pub struct TimeSpanTag {
    pub key: String,
    pub value: String,
}

/// The page of time spans to fetch; absent parts take Traggo's defaults.
#[derive(Debug)]
pub struct InputCursor {
    pub offset: Option<i64>,
    pub start_id: Option<i64>,
    pub page_size: Option<i64>,
}

/// Variables of the `TimeSpans` query.
#[derive(Debug)]
pub struct TimeSpansVariables {
    pub from_inclusive: Option<String>,
    pub to_inclusive: Option<String>,
    pub cursor: Option<InputCursor>,
}

/// Variables of the `CreateTimeSpan` mutation.
#[derive(Debug)]
pub struct CreateTimeSpanVariables {
    pub start: String,
    pub end: Option<String>,
    pub tags: Option<Vec<TimeSpanTag>>,
    pub note: String,
}

/// Variables of the `UpdateTimeSpan` mutation.
#[derive(Debug)]
pub struct UpdateTimeSpanVariables {
    pub id: i64,
    pub start: String,
    pub end: Option<String>,
    pub tags: Option<Vec<TimeSpanTag>>,
    pub old_start: Option<String>,
    pub note: String,
}

/// Variables of the `StopTimer` mutation.
#[derive(Debug)]
pub struct StopTimerVariables {
    pub id: i64,
    pub end: String,
}

/// Variables of the `RemoveTimeSpan` mutation.
#[derive(Debug)]
pub struct RemoveTimeSpanVariables {
    pub id: i64,
}

/// Variables of the `CreateTag` mutation.
#[derive(Debug)]
pub struct CreateTagVariables {
    pub key: String,
    pub color: String,
}

/// Variables of the `UpdateTag` mutation.
#[derive(Debug)]
pub struct UpdateTagVariables {
    pub key: String,
    pub new_key: Option<String>,
    pub color: String,
}

/// Variables of the `RemoveTag` mutation.
#[derive(Debug)]
pub struct RemoveTagVariables {
    pub key: String,
}

/// Variables of the `SuggestTagValues` query.
#[derive(Debug)]
pub struct SuggestTagValuesVariables {
    pub key: String,
    pub query: String,
}

/// A range of time for the `Stats` query.
#[derive(Debug)]
pub struct StatsRange {
    pub start: String,
    pub end: String,
}

/// Variables of the `Stats` query.
#[derive(Debug)]
pub struct StatsVariables {
    pub ranges: Option<Vec<StatsRange>>,
    pub tags: Option<Vec<String>>,
    pub exclude_tags: Option<Vec<TimeSpanTag>>,
    pub require_tags: Option<Vec<TimeSpanTag>>,
}

/// A time span as Traggo returns it.
#[derive(Debug)]
pub struct TimeSpanData {
    pub id: i64,
    pub start: String,
    pub end: Option<String>,
    pub old_start: Option<String>,
    pub note: String,
    pub tags: Option<Vec<TimeSpanTag>>,
}

/// Traggo's position after a page of time spans.
#[derive(Debug)]
pub struct CursorData {
    pub has_more: bool,
    pub offset: i64,
    pub start_id: i64,
    pub page_size: i64,
}

/// A page of time spans and the cursor after it.
#[derive(Debug)]
pub struct TimeSpanPage {
    pub time_spans: Vec<TimeSpanData>,
    pub cursor: CursorData,
}

/// A tag definition as Traggo returns it.
#[derive(Debug)]
pub struct TagData {
    pub key: String,
    pub color: String,
    pub usages: i64,
}

} // verus!
