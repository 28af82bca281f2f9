//! The tools the server offers: their arguments and results, the checks
//! each runs before it calls Traggo, and how Traggo's data becomes a
//! result.
use vstd::prelude::*;

use crate::cursor::{decoded_cursor, token_of, PageCursor};
use crate::error::{check_outcome, display_text, validation_error, AppError, ErrorModel};
use crate::graphql::{
    CreateTagVariables, CreateTimeSpanVariables, CursorData, InputCursor, RemoveTagVariables,
    RemoveTimeSpanVariables, StatsRange, StatsVariables, StopTimerVariables,
    SuggestTagValuesVariables, TagData, TimeSpanData, TimeSpanPage, TimeSpanTag,
    TimeSpansVariables, UpdateTagVariables, UpdateTimeSpanVariables,
};
use crate::text::{decimal, is_blank, push_decimal};
use crate::validation::{
    instant_before, non_negative_error, DEFAULT_PAGE_SIZE, optional_required_string_error, rfc3339_instant, MAX_PAGE_SIZE, optional_rfc3339_error, page_size_error,
    requested_page_size, required_string_error, rfc3339_error, time_order_error,
    validate_non_negative, validate_optional_required_string, validate_optional_rfc3339,
    validate_page_size, validate_required_string, validate_rfc3339, validate_time_order,
};

verus! {

/// A tag given to a tool.
#[derive(Debug)]
pub struct TagInput {
    pub key: String,
    pub value: String,
}

/// A range of time given to `get_stats`.
#[derive(Debug)]
pub struct RangeInput {
    pub start: String,
    pub end: String,
}

/// Arguments of `list_time_spans`. `cursor` is the opaque token of an
/// earlier page's result, passed back verbatim to fetch the page after it;
/// without it the first page is listed.
#[derive(Debug)]
pub struct ListTimeSpansInput {
    pub from_inclusive: Option<String>,
    pub to_inclusive: Option<String>,
    pub page_size: Option<i64>,
    pub cursor: Option<String>,
}

/// Arguments of `create_time_span`.
#[derive(Debug)]
pub struct CreateTimeSpanInput {
    pub start: String,
    pub end: Option<String>,
    pub tags: Option<Vec<TagInput>>,
    pub note: String,
}

/// Arguments of `update_time_span`.
#[derive(Debug)]
pub struct UpdateTimeSpanInput {
    pub id: i64,
    pub start: String,
    pub end: Option<String>,
    pub tags: Option<Vec<TagInput>>,
    pub old_start: Option<String>,
    pub note: String,
}

/// Arguments of `stop_timer`.
#[derive(Debug)]
pub struct StopTimerInput {
    pub id: i64,
    pub end: String,
}

/// Arguments of `remove_time_span`.
#[derive(Debug)]
pub struct RemoveTimeSpanInput {
    pub id: i64,
}

/// Arguments of `create_tag`.
#[derive(Debug)]
pub struct CreateTagInput {
    pub key: String,
    pub color: String,
}

/// Arguments of `update_tag`.
#[derive(Debug)]
pub struct UpdateTagInput {
    pub key: String,
    pub new_key: Option<String>,
    pub color: String,
}

/// Arguments of `remove_tag`.
#[derive(Debug)]
pub struct RemoveTagInput {
    pub key: String,
}

/// Arguments of `suggest_tag_values`.
#[derive(Debug)]
pub struct SuggestTagValuesInput {
    pub key: String,
    pub query: String,
}

/// Arguments of `get_stats`.
#[derive(Debug)]
pub struct StatsInput {
    pub ranges: Vec<RangeInput>,
    pub tags: Vec<String>,
    pub exclude_tags: Option<Vec<TagInput>>,
    pub require_tags: Option<Vec<TagInput>>,
}

/// Result of `list_time_spans`.
#[derive(Debug)]
pub struct ListTimeSpansOutput {
    pub time_spans: Vec<TimeSpanOutput>,
    pub cursor: CursorOutput,
}

/// Result of `list_timers`.
#[derive(Debug)]
pub struct ListTimersOutput {
    pub timers: Vec<TimeSpanOutput>,
}

/// Result of the tools that change one time span.
#[derive(Debug)]
pub struct TimeSpanMutationOutput {
    pub time_span: Option<TimeSpanOutput>,
}

/// A time span in a tool's result.
#[derive(Debug)]
pub struct TimeSpanOutput {
    pub id: i64,
    pub start: String,
    pub end: Option<String>,
    pub old_start: Option<String>,
    pub note: String,
    pub tags: Vec<TagOutput>,
}

/// Where listing goes on after a page of time spans: whether more pages
/// remain and, when they do, the opaque token that fetches the next one.
#[derive(Debug)]
pub struct CursorOutput {
    pub has_more: bool,
    pub next_cursor: Option<String>,
}

/// Result of `list_tags`.
#[derive(Debug)]
pub struct TagsOutput {
    pub tags: Vec<TagDefinitionOutput>,
}

/// Result of the tools that change one tag definition.
#[derive(Debug)]
pub struct TagMutationOutput {
    pub tag: Option<TagDefinitionOutput>,
}

/// A tag definition in a tool's result.
#[derive(Debug)]
pub struct TagDefinitionOutput {
    pub key: String,
    pub color: String,
    pub usages: i64,
}

/// Result of `suggest_tag_values`.
#[derive(Debug)]
pub struct SuggestTagValuesOutput {
    pub values: Vec<String>,
}

/// A tag of a time span in a tool's result.
#[derive(Debug)]
pub struct TagOutput {
    pub key: String,
    pub value: String,
}

/// The first of two failures, in order.
pub open spec fn or_else(first: Option<ErrorModel>, second: Option<ErrorModel>) -> Option<
    ErrorModel,
> {
    if first is Some {
        first
    } else {
        second
    }
}

/// `prefix[i]suffix`, the name of an element of a list argument.
pub open spec fn indexed_name(prefix: Seq<char>, i: int, suffix: Seq<char>) -> Seq<char> {
    prefix + "["@ + decimal(i as nat) + "]"@ + suffix
}

/// The failure of an id that must be positive.
pub open spec fn positive_id_error(name: Seq<char>, id: i64) -> Option<ErrorModel> {
    if id <= 0 {
        Some(validation_error(name + " must be positive"@))
    } else {
        None
    }
}

/// The first failing tag at index `i` or later: a blank key, then a blank
/// value.
pub open spec fn tag_list_error_from(tags: Seq<TagInput>, i: int) -> Option<ErrorModel>
    decreases tags.len() - i,
{
    if i < 0 || i >= tags.len() {
        None
    } else {
        or_else(
            required_string_error(indexed_name("tags"@, i, ".key"@), tags[i].key@),
            or_else(
                required_string_error(indexed_name("tags"@, i, ".value"@), tags[i].value@),
                tag_list_error_from(tags, i + 1),
            ),
        )
    }
}

/// The failure of an optional list of tags.
pub open spec fn tags_error(tags: Option<Seq<TagInput>>) -> Option<ErrorModel> {
    match tags {
        Some(t) => tag_list_error_from(t, 0),
        None => None,
    }
}

/// The view of an optional vector.
pub open spec fn opt_seq<T>(v: Option<Vec<T>>) -> Option<Seq<T>> {
    match v {
        Some(x) => Some(x@),
        None => None,
    }
}

/// The tag a tool's argument gives Traggo.
pub open spec fn tag_of(t: TagInput) -> TimeSpanTag {
    TimeSpanTag { key: t.key, value: t.value }
}

/// The tags a tool's arguments give Traggo.
pub open spec fn tags_of(tags: Option<Vec<TagInput>>) -> Option<Seq<TimeSpanTag>> {
    match tags {
        Some(t) => Some(t@.map_values(|x: TagInput| tag_of(x))),
        None => None,
    }
}

/// The name of an element of a list argument, such as `tags[3].key`.
pub fn indexed_name_string(prefix: &str, i: usize, suffix: &str) -> (r: String)
    ensures
        r@ == indexed_name(prefix@, i as int, suffix@),
{
    let mut s = String::from_str(prefix);
    s.append("[");
    push_decimal(&mut s, i as u64);
    s.append("]");
    s.append(suffix);
    s
}

/// Fails with a validation error when `value` is not positive.
pub fn validate_positive_id(name: &str, value: i64) -> (r: Result<(), AppError>)
    ensures
        check_outcome(r, positive_id_error(name@, value)),
{
    if value <= 0 {
        return Err(AppError::Validation(String::from_str(name).concat(" must be positive")));
    }
    Ok(())
}

/// Every tag of the list must have a key and a value that are not blank.
fn validate_tag_list(tags: &[TagInput]) -> (r: Result<(), AppError>)
    ensures
        check_outcome(r, tag_list_error_from(tags@, 0)),
{
    let n = tags.len();
    let mut i: usize = 0;
    while i < n
        invariant
            n == tags@.len(),
            i <= n,
            tag_list_error_from(tags@, 0) == tag_list_error_from(tags@, i as int),
        decreases n - i,
    {
        let key_name = indexed_name_string("tags", i, ".key");
        validate_required_string(key_name.as_str(), tags[i].key.as_str())?;
        let value_name = indexed_name_string("tags", i, ".value");
        validate_required_string(value_name.as_str(), tags[i].value.as_str())?;
        i = i + 1;
    }
    Ok(())
}

/// Every tag must have a key and a value that are not blank.
pub fn validate_tags(tags: Option<&[TagInput]>) -> (r: Result<(), AppError>)
    ensures
        check_outcome(
            r,
            match tags {
                Some(t) => tag_list_error_from(t@, 0),
                None => None,
            },
        ),
{
    match tags {
        Some(list) => validate_tag_list(list),
        None => Ok(()),
    }
}

/// The tags as Traggo takes them.
pub fn input_tags(tags: Vec<TagInput>) -> (r: Vec<TimeSpanTag>)
    ensures
        r@ == tags@.map_values(|x: TagInput| tag_of(x)),
{
    let ghost src = tags@;
    let mut out: Vec<TimeSpanTag> = Vec::new();
    for t in it: tags
        invariant
            it.seq() == src,
            out@ == src.take(it.index() as int).map_values(|x: TagInput| tag_of(x)),
    {
        out.push(TimeSpanTag { key: t.key, value: t.value });
        assert(out@ =~= src.take(it.index() + 1).map_values(|x: TagInput| tag_of(x)));
    }
    assert(src.take(src.len() as int) =~= src);
    out
}


/// The failure of a pagination token: one that is not a token, or one
/// whose offset or start id is negative.
pub open spec fn cursor_token_error(cursor: Option<String>) -> Option<ErrorModel> {
    match cursor {
        None => None,
        Some(t) => match decoded_cursor(t@) {
            None => Some(validation_error("cursor is not a valid pagination token"@)),
            Some(c) => or_else(
                non_negative_error("offset"@, Some(c.offset)),
                non_negative_error("start_id"@, Some(c.start_id)),
            ),
        },
    }
}

/// The position a token resumes at, if a token is given and valid.
pub open spec fn resume_point(cursor: Option<String>) -> Option<PageCursor> {
    match cursor {
        Some(t) => decoded_cursor(t@),
        None => None,
    }
}

/// The page size `list_time_spans` asks for: the one given, else the one
/// the token carries, else the default.
pub open spec fn list_page_size(input: ListTimeSpansInput) -> i64 {
    match input.page_size {
        Some(p) => p,
        None => match resume_point(input.cursor) {
            Some(c) => c.page_size,
            None => DEFAULT_PAGE_SIZE,
        },
    }
}

/// The failure of `list_time_spans`' arguments, checked in order: both
/// bounds are timestamps, in order when both are given, the token (when
/// given) is valid with no negative offset or start id, and the page size
/// is in range.
pub open spec fn list_time_spans_error(input: ListTimeSpansInput) -> Option<ErrorModel> {
    or_else(
        optional_rfc3339_error("from_inclusive"@, input.from_inclusive),
        or_else(
            optional_rfc3339_error("to_inclusive"@, input.to_inclusive),
            or_else(
                match (input.from_inclusive, input.to_inclusive) {
                    (Some(from), Some(to)) => time_order_error(
                        "from_inclusive"@,
                        from@,
                        "to_inclusive"@,
                        to@,
                    ),
                    _ => None,
                },
                or_else(
                    cursor_token_error(input.cursor),
                    page_size_error(Some(list_page_size(input))),
                ),
            ),
        ),
    )
}

/// Checks the arguments of `list_time_spans` and gives the variables of the
/// query it sends: the bounds as given, and a cursor at the position the
/// token holds (the first page without one) with the page size filled in.
/// A token made for a page resumes exactly where that page ended.
pub fn list_time_spans_variables(input: ListTimeSpansInput) -> (r: Result<
    TimeSpansVariables,
    AppError,
>)
    ensures
        match list_time_spans_error(input) {
            Some(e) => r matches Err(x) && x@ == e,
            None => r matches Ok(v) && v.from_inclusive == input.from_inclusive && v.to_inclusive
                == input.to_inclusive && v.cursor == Some(
                InputCursor {
                    offset: match resume_point(input.cursor) {
                        Some(c) => Some(c.offset),
                        None => None,
                    },
                    start_id: match resume_point(input.cursor) {
                        Some(c) => Some(c.start_id),
                        None => None,
                    },
                    page_size: Some(list_page_size(input)),
                },
            ),
        },
        forall|c: PageCursor|
            (input.cursor matches Some(t) && token_of(t@, c)) ==> resume_point(input.cursor)
                == Some(c),
{
    let decoded = match &input.cursor {
        Some(token) => Some(PageCursor::decode(token.as_str())),
        None => None,
    };
    validate_optional_rfc3339("from_inclusive", input.from_inclusive.as_ref())?;
    validate_optional_rfc3339("to_inclusive", input.to_inclusive.as_ref())?;
    if let (Some(from), Some(to)) = (&input.from_inclusive, &input.to_inclusive) {
        validate_time_order("from_inclusive", from.as_str(), "to_inclusive", to.as_str())?;
    }
    let resume = match decoded {
        Some(result) => Some(result?),
        None => None,
    };
    let (offset, start_id) = match resume {
        Some(c) => (Some(c.offset), Some(c.start_id)),
        None => (None, None),
    };
    validate_non_negative("offset", offset)?;
    validate_non_negative("start_id", start_id)?;
    let requested = match input.page_size {
        Some(p) => Some(p),
        None => match resume {
            Some(c) => Some(c.page_size),
            None => None,
        },
    };
    let page_size = validate_page_size(requested)?;
    Ok(
        TimeSpansVariables {
            from_inclusive: input.from_inclusive,
            to_inclusive: input.to_inclusive,
            cursor: Some(InputCursor { offset, start_id, page_size: Some(page_size) }),
        },
    )
}

/// The failure of the time order of a span whose end may be absent.
pub open spec fn optional_end_order_error(start: String, end: Option<String>) -> Option<
    ErrorModel,
> {
    match end {
        Some(e) => time_order_error("start"@, start@, "end"@, e@),
        None => None,
    }
}

/// The failure of `create_time_span`'s arguments, checked in order: start
/// and end are timestamps, start before end, and no tag is blank.
pub open spec fn create_time_span_error(input: CreateTimeSpanInput) -> Option<ErrorModel> {
    or_else(
        rfc3339_error("start"@, input.start@),
        or_else(
            optional_rfc3339_error("end"@, input.end),
            or_else(
                optional_end_order_error(input.start, input.end),
                tags_error(opt_seq(input.tags)),
            ),
        ),
    )
}

/// The tags as Traggo takes them, when there are any.
fn optional_input_tags(tags: Option<Vec<TagInput>>) -> (r: Option<Vec<TimeSpanTag>>)
    ensures
        opt_seq(r) == tags_of(tags),
{
    match tags {
        Some(t) => Some(input_tags(t)),
        None => None,
    }
}

/// Checks the arguments of `create_time_span` and gives the variables of
/// the mutation it sends.
pub fn create_time_span_variables(input: CreateTimeSpanInput) -> (r: Result<
    CreateTimeSpanVariables,
    AppError,
>)
    ensures
        match create_time_span_error(input) {
            Some(e) => r matches Err(x) && x@ == e,
            None => r matches Ok(v) && v.start == input.start && v.end == input.end && opt_seq(
                v.tags,
            ) == tags_of(input.tags) && v.note == input.note,
        },
{
    validate_rfc3339("start", input.start.as_str())?;
    validate_optional_rfc3339("end", input.end.as_ref())?;
    if let Some(end) = &input.end {
        validate_time_order("start", input.start.as_str(), "end", end.as_str())?;
    }
    match &input.tags {
        Some(t) => validate_tags(Some(t.as_slice()))?,
        None => {},
    }
    Ok(
        CreateTimeSpanVariables {
            start: input.start,
            end: input.end,
            tags: optional_input_tags(input.tags),
            note: input.note,
        },
    )
}

/// The failure of `update_time_span`'s arguments, checked in order: a
/// positive id, start, end and old start are timestamps, start before end,
/// and no tag is blank.
pub open spec fn update_time_span_error(input: UpdateTimeSpanInput) -> Option<ErrorModel> {
    or_else(
        positive_id_error("id"@, input.id),
        or_else(
            rfc3339_error("start"@, input.start@),
            or_else(
                optional_rfc3339_error("end"@, input.end),
                or_else(
                    optional_rfc3339_error("old_start"@, input.old_start),
                    or_else(
                        optional_end_order_error(input.start, input.end),
                        tags_error(opt_seq(input.tags)),
                    ),
                ),
            ),
        ),
    )
}

/// Checks the arguments of `update_time_span` and gives the variables of
/// the mutation it sends.
pub fn update_time_span_variables(input: UpdateTimeSpanInput) -> (r: Result<
    UpdateTimeSpanVariables,
    AppError,
>)
    ensures
        match update_time_span_error(input) {
            Some(e) => r matches Err(x) && x@ == e,
            None => r matches Ok(v) && v.id == input.id && v.start == input.start && v.end
                == input.end && opt_seq(v.tags) == tags_of(input.tags) && v.old_start
                == input.old_start && v.note == input.note,
        },
{
    validate_positive_id("id", input.id)?;
    validate_rfc3339("start", input.start.as_str())?;
    validate_optional_rfc3339("end", input.end.as_ref())?;
    validate_optional_rfc3339("old_start", input.old_start.as_ref())?;
    if let Some(end) = &input.end {
        validate_time_order("start", input.start.as_str(), "end", end.as_str())?;
    }
    match &input.tags {
        Some(t) => validate_tags(Some(t.as_slice()))?,
        None => {},
    }
    Ok(
        UpdateTimeSpanVariables {
            id: input.id,
            start: input.start,
            end: input.end,
            tags: optional_input_tags(input.tags),
            old_start: input.old_start,
            note: input.note,
        },
    )
}

/// The failure of `stop_timer`'s arguments: a positive id, then an end
/// that is a timestamp.
pub open spec fn stop_timer_error(input: StopTimerInput) -> Option<ErrorModel> {
    or_else(positive_id_error("id"@, input.id), rfc3339_error("end"@, input.end@))
}

/// Checks the arguments of `stop_timer` and gives the variables of the
/// mutation it sends.
pub fn stop_timer_variables(input: StopTimerInput) -> (r: Result<StopTimerVariables, AppError>)
    ensures
        match stop_timer_error(input) {
            Some(e) => r matches Err(x) && x@ == e,
            None => r matches Ok(v) && v.id == input.id && v.end == input.end,
        },
{
    validate_positive_id("id", input.id)?;
    validate_rfc3339("end", input.end.as_str())?;
    Ok(StopTimerVariables { id: input.id, end: input.end })
}

/// Checks the arguments of `remove_time_span` (a positive id) and gives the
/// variables of the mutation it sends.
pub fn remove_time_span_variables(input: RemoveTimeSpanInput) -> (r: Result<
    RemoveTimeSpanVariables,
    AppError,
>)
    ensures
        match positive_id_error("id"@, input.id) {
            Some(e) => r matches Err(x) && x@ == e,
            None => r matches Ok(v) && v.id == input.id,
        },
{
    validate_positive_id("id", input.id)?;
    Ok(RemoveTimeSpanVariables { id: input.id })
}

/// Checks the arguments of `create_tag` (key, then color, not blank) and
/// gives the variables of the mutation it sends.
pub fn create_tag_variables(input: CreateTagInput) -> (r: Result<CreateTagVariables, AppError>)
    ensures
        match or_else(
            required_string_error("key"@, input.key@),
            required_string_error("color"@, input.color@),
        ) {
            Some(e) => r matches Err(x) && x@ == e,
            None => r matches Ok(v) && v.key == input.key && v.color == input.color,
        },
{
    validate_required_string("key", input.key.as_str())?;
    validate_required_string("color", input.color.as_str())?;
    Ok(CreateTagVariables { key: input.key, color: input.color })
}

/// The failure of `update_tag`'s arguments: key, new key when given, and
/// color must not be blank.
pub open spec fn update_tag_error(input: UpdateTagInput) -> Option<ErrorModel> {
    or_else(
        required_string_error("key"@, input.key@),
        or_else(
            optional_required_string_error("new_key"@, input.new_key),
            required_string_error("color"@, input.color@),
        ),
    )
}

/// Checks the arguments of `update_tag` and gives the variables of the
/// mutation it sends.
pub fn update_tag_variables(input: UpdateTagInput) -> (r: Result<UpdateTagVariables, AppError>)
    ensures
        match update_tag_error(input) {
            Some(e) => r matches Err(x) && x@ == e,
            None => r matches Ok(v) && v.key == input.key && v.new_key == input.new_key && v.color
                == input.color,
        },
{
    validate_required_string("key", input.key.as_str())?;
    validate_optional_required_string("new_key", input.new_key.as_ref())?;
    validate_required_string("color", input.color.as_str())?;
    Ok(UpdateTagVariables { key: input.key, new_key: input.new_key, color: input.color })
}

/// Checks the arguments of `remove_tag` (a key that is not blank) and gives
/// the variables of the mutation it sends.
pub fn remove_tag_variables(input: RemoveTagInput) -> (r: Result<RemoveTagVariables, AppError>)
    ensures
        match required_string_error("key"@, input.key@) {
            Some(e) => r matches Err(x) && x@ == e,
            None => r matches Ok(v) && v.key == input.key,
        },
{
    validate_required_string("key", input.key.as_str())?;
    Ok(RemoveTagVariables { key: input.key })
}

/// Checks the arguments of `suggest_tag_values` (a key that is not blank;
/// the query may be anything) and gives the variables of the query it
/// sends.
pub fn suggest_tag_values_variables(input: SuggestTagValuesInput) -> (r: Result<
    SuggestTagValuesVariables,
    AppError,
>)
    ensures
        match required_string_error("key"@, input.key@) {
            Some(e) => r matches Err(x) && x@ == e,
            None => r matches Ok(v) && v.key == input.key && v.query == input.query,
        },
{
    validate_required_string("key", input.key.as_str())?;
    Ok(SuggestTagValuesVariables { key: input.key, query: input.query })
}


/// The first range at index `i` or later whose bounds are not timestamps in
/// order.
pub open spec fn range_list_error_from(ranges: Seq<RangeInput>, i: int) -> Option<ErrorModel>
    decreases ranges.len() - i,
{
    if i < 0 || i >= ranges.len() {
        None
    } else {
        or_else(
            time_order_error(
                indexed_name("ranges"@, i, ".start"@),
                ranges[i].start@,
                indexed_name("ranges"@, i, ".end"@),
                ranges[i].end@,
            ),
            range_list_error_from(ranges, i + 1),
        )
    }
}

/// The first blank tag key at index `i` or later.
pub open spec fn tag_key_list_error_from(tags: Seq<String>, i: int) -> Option<ErrorModel>
    decreases tags.len() - i,
{
    if i < 0 || i >= tags.len() {
        None
    } else {
        or_else(
            required_string_error(indexed_name("tags"@, i, ""@), tags[i]@),
            tag_key_list_error_from(tags, i + 1),
        )
    }
}

/// The failure of `get_stats`' arguments, checked in order: some range,
/// some tag key, every range in order, every tag key not blank, then the
/// excluded and the required tags.
pub open spec fn stats_error(input: StatsInput) -> Option<ErrorModel> {
    if input.ranges.len() == 0 {
        Some(validation_error("ranges must not be empty"@))
    } else if input.tags.len() == 0 {
        Some(validation_error("tags must not be empty"@))
    } else {
        or_else(
            range_list_error_from(input.ranges@, 0),
            or_else(
                tag_key_list_error_from(input.tags@, 0),
                or_else(
                    tags_error(opt_seq(input.exclude_tags)),
                    tags_error(opt_seq(input.require_tags)),
                ),
            ),
        )
    }
}

/// The range a `get_stats` argument gives Traggo.
pub open spec fn range_of(r: RangeInput) -> StatsRange {
    StatsRange { start: r.start, end: r.end }
}

/// Every range must be a pair of timestamps in order.
fn validate_ranges(ranges: &Vec<RangeInput>) -> (r: Result<(), AppError>)
    ensures
        check_outcome(r, range_list_error_from(ranges@, 0)),
{
    let n = ranges.len();
    let mut i: usize = 0;
    while i < n
        invariant
            n == ranges@.len(),
            i <= n,
            range_list_error_from(ranges@, 0) == range_list_error_from(ranges@, i as int),
        decreases n - i,
    {
        let start_name = indexed_name_string("ranges", i, ".start");
        let end_name = indexed_name_string("ranges", i, ".end");
        validate_time_order(
            start_name.as_str(),
            ranges[i].start.as_str(),
            end_name.as_str(),
            ranges[i].end.as_str(),
        )?;
        i = i + 1;
    }
    Ok(())
}

/// Every tag key must not be blank.
fn validate_tag_keys(tags: &Vec<String>) -> (r: Result<(), AppError>)
    ensures
        check_outcome(r, tag_key_list_error_from(tags@, 0)),
{
    let n = tags.len();
    let mut i: usize = 0;
    while i < n
        invariant
            n == tags@.len(),
            i <= n,
            tag_key_list_error_from(tags@, 0) == tag_key_list_error_from(tags@, i as int),
        decreases n - i,
    {
        let name = indexed_name_string("tags", i, "");
        validate_required_string(name.as_str(), tags[i].as_str())?;
        i = i + 1;
    }
    Ok(())
}

/// The ranges as Traggo takes them.
fn stats_ranges(ranges: Vec<RangeInput>) -> (r: Vec<StatsRange>)
    ensures
        r@ == ranges@.map_values(|x: RangeInput| range_of(x)),
{
    let ghost src = ranges@;
    let mut out: Vec<StatsRange> = Vec::new();
    for x in it: ranges
        invariant
            it.seq() == src,
            out@ == src.take(it.index() as int).map_values(|x: RangeInput| range_of(x)),
    {
        out.push(StatsRange { start: x.start, end: x.end });
        assert(out@ =~= src.take(it.index() + 1).map_values(|x: RangeInput| range_of(x)));
    }
    assert(src.take(src.len() as int) =~= src);
    out
}

/// Checks the arguments of `get_stats` and gives the variables of the query
/// it sends.
pub fn stats_variables(input: StatsInput) -> (r: Result<StatsVariables, AppError>)
    ensures
        match stats_error(input) {
            Some(e) => r matches Err(x) && x@ == e,
            None => r matches Ok(v) && v.ranges matches Some(rs) && rs@ == input.ranges@.map_values(
                |x: RangeInput| range_of(x),
            ) && v.tags == Some(input.tags) && opt_seq(v.exclude_tags) == tags_of(
                input.exclude_tags,
            ) && opt_seq(v.require_tags) == tags_of(input.require_tags),
        },
{
    if input.ranges.len() == 0 {
        return Err(AppError::Validation(String::from_str("ranges must not be empty")));
    }
    if input.tags.len() == 0 {
        return Err(AppError::Validation(String::from_str("tags must not be empty")));
    }
    validate_ranges(&input.ranges)?;
    validate_tag_keys(&input.tags)?;
    match &input.exclude_tags {
        Some(t) => validate_tags(Some(t.as_slice()))?,
        None => {},
    }
    match &input.require_tags {
        Some(t) => validate_tags(Some(t.as_slice()))?,
        None => {},
    }
    Ok(
        StatsVariables {
            ranges: Some(stats_ranges(input.ranges)),
            tags: Some(input.tags),
            exclude_tags: optional_input_tags(input.exclude_tags),
            require_tags: optional_input_tags(input.require_tags),
        },
    )
}


/// The tag of a time span as a result shows it.
pub open spec fn tag_output_of(t: TimeSpanTag) -> TagOutput {
    TagOutput { key: t.key, value: t.value }
}

/// The tags of a time span as a result shows them; absent tags show as
/// none.
pub open spec fn tags_output_of(tags: Option<Vec<TimeSpanTag>>) -> Seq<TagOutput> {
    match tags {
        Some(t) => t@.map_values(|x: TimeSpanTag| tag_output_of(x)),
        None => Seq::empty(),
    }
}

/// Whether `o` shows the time span `d`.
pub open spec fn shows_time_span(o: TimeSpanOutput, d: TimeSpanData) -> bool {
    &&& o.id == d.id
    &&& o.start == d.start
    &&& o.end == d.end
    &&& o.old_start == d.old_start
    &&& o.note == d.note
    &&& o.tags@ == tags_output_of(d.tags)
}

/// Whether `os` shows the time spans `ds`, one for one and in order.
pub open spec fn shows_time_spans(os: Seq<TimeSpanOutput>, ds: Seq<TimeSpanData>) -> bool {
    os.len() == ds.len() && forall|i: int| 0 <= i < ds.len() ==> shows_time_span(os[i], ds[i])
}

/// The tag definition as a result shows it.
pub open spec fn tag_definition_of(t: TagData) -> TagDefinitionOutput {
    TagDefinitionOutput { key: t.key, color: t.color, usages: t.usages }
}

/// The tag of a time span as a result shows it.
pub fn tag_output(tag: TimeSpanTag) -> (r: TagOutput)
    ensures
        r == tag_output_of(tag),
        r.key == tag.key,
        r.value == tag.value,
{
    TagOutput { key: tag.key, value: tag.value }
}

/// The tags of a time span as a result shows them.
fn tag_outputs(tags: Option<Vec<TimeSpanTag>>) -> (r: Vec<TagOutput>)
    ensures
        r@ == tags_output_of(tags),
{
    let mut out: Vec<TagOutput> = Vec::new();
    if let Some(tags) = tags {
        let ghost src = tags@;
        for t in it: tags
            invariant
                it.seq() == src,
                out@ == src.take(it.index() as int).map_values(|x: TimeSpanTag| tag_output_of(x)),
        {
            out.push(tag_output(t));
            assert(out@ =~= src.take(it.index() + 1).map_values(
                |x: TimeSpanTag| tag_output_of(x),
            ));
        }
        assert(src.take(src.len() as int) =~= src);
    }
    out
}

/// The time span as a result shows it.
pub fn time_span_output(span: TimeSpanData) -> (r: TimeSpanOutput)
    ensures
        shows_time_span(r, span),
        r.id == span.id,
        r.start == span.start,
        r.end == span.end,
        r.old_start == span.old_start,
        r.note == span.note,
        span.tags is None ==> r.tags@.len() == 0,
        span.tags matches Some(t) ==> r.tags@.len() == t@.len(),
        span.tags matches Some(t) ==> forall|i: int|
            0 <= i < t@.len() ==> (#[trigger] r.tags@[i]).key == t@[i].key && r.tags@[i].value
                == t@[i].value,
{
    TimeSpanOutput {
        id: span.id,
        start: span.start,
        end: span.end,
        old_start: span.old_start,
        note: span.note,
        tags: tag_outputs(span.tags),
    }
}

/// The time spans as a result shows them.
fn time_span_outputs(spans: Vec<TimeSpanData>) -> (r: Vec<TimeSpanOutput>)
    ensures
        shows_time_spans(r@, spans@),
{
    let ghost src = spans@;
    let mut out: Vec<TimeSpanOutput> = Vec::new();
    for d in it: spans
        invariant
            it.seq() == src,
            out@.len() == it.index(),
            forall|i: int| 0 <= i < it.index() ==> shows_time_span(#[trigger] out@[i], src[i]),
    {
        out.push(time_span_output(d));
    }
    out
}

/// The position Traggo reports after a page, as a cursor.
pub open spec fn page_end(c: CursorData) -> PageCursor {
    PageCursor { offset: c.offset, start_id: c.start_id, page_size: c.page_size }
}

/// The result of `list_time_spans`: the page's time spans and, when more
/// pages remain, the opaque token of Traggo's position after this page.
pub fn list_time_spans_output(page: TimeSpanPage) -> (r: ListTimeSpansOutput)
    ensures
        shows_time_spans(r.time_spans@, page.time_spans@),
        r.cursor.has_more == page.cursor.has_more,
        page.cursor.has_more ==> (r.cursor.next_cursor matches Some(t) && token_of(
            t@,
            page_end(page.cursor),
        )),
        page.cursor.has_more ==> (r.cursor.next_cursor matches Some(t) && token_of(
            t@,
            PageCursor {
                offset: page.cursor.offset,
                start_id: page.cursor.start_id,
                page_size: page.cursor.page_size,
            },
        )),
        !page.cursor.has_more ==> r.cursor.next_cursor is None,
{
    let next_cursor = if page.cursor.has_more {
        let position = PageCursor {
            offset: page.cursor.offset,
            start_id: page.cursor.start_id,
            page_size: page.cursor.page_size,
        };
        match position.encode() {
            Ok(token) => Some(token),
            Err(_) => None,
        }
    } else {
        None
    };
    ListTimeSpansOutput {
        time_spans: time_span_outputs(page.time_spans),
        cursor: CursorOutput { has_more: page.cursor.has_more, next_cursor },
    }
}

/// The result of `list_timers`; absent timers show as none.
pub fn list_timers_output(timers: Option<Vec<TimeSpanData>>) -> (r: ListTimersOutput)
    ensures
        shows_time_spans(
            r.timers@,
            match timers {
                Some(t) => t@,
                None => Seq::empty(),
            },
        ),
{
    match timers {
        Some(t) => ListTimersOutput { timers: time_span_outputs(t) },
        None => ListTimersOutput { timers: Vec::new() },
    }
}

/// The result of a tool that changes one time span.
pub fn time_span_mutation_output(span: Option<TimeSpanData>) -> (r: TimeSpanMutationOutput)
    ensures
        match span {
            Some(d) => r.time_span matches Some(o) && shows_time_span(o, d),
            None => r.time_span is None,
        },
{
    match span {
        Some(d) => TimeSpanMutationOutput { time_span: Some(time_span_output(d)) },
        None => TimeSpanMutationOutput { time_span: None },
    }
}

/// The tag definition as a result shows it.
pub fn tag_definition_output(tag: TagData) -> (r: TagDefinitionOutput)
    ensures
        r == tag_definition_of(tag),
        r.key == tag.key,
        r.color == tag.color,
        r.usages == tag.usages,
{
    TagDefinitionOutput { key: tag.key, color: tag.color, usages: tag.usages }
}

/// The result of `list_tags`; absent tags show as none.
pub fn tags_output(tags: Option<Vec<TagData>>) -> (r: TagsOutput)
    ensures
        r.tags@ == match tags {
            Some(t) => t@.map_values(|x: TagData| tag_definition_of(x)),
            None => Seq::empty(),
        },
        tags matches Some(t) ==> r.tags@.len() == t@.len(),
        tags is None ==> r.tags@.len() == 0,
        tags matches Some(t) ==> forall|i: int|
            0 <= i < t@.len() ==> (#[trigger] r.tags@[i]).key == t@[i].key && r.tags@[i].color
                == t@[i].color && r.tags@[i].usages == t@[i].usages,
{
    let mut out: Vec<TagDefinitionOutput> = Vec::new();
    if let Some(tags) = tags {
        let ghost src = tags@;
        for t in it: tags
            invariant
                it.seq() == src,
                out@ == src.take(it.index() as int).map_values(|x: TagData| tag_definition_of(x)),
        {
            out.push(tag_definition_output(t));
            assert(out@ =~= src.take(it.index() + 1).map_values(
                |x: TagData| tag_definition_of(x),
            ));
        }
        assert(src.take(src.len() as int) =~= src);
    }
    TagsOutput { tags: out }
}

/// The result of a tool that changes one tag definition.
pub fn tag_mutation_output(tag: Option<TagData>) -> (r: TagMutationOutput)
    ensures
        match tag {
            Some(t) => r.tag == Some(tag_definition_of(t)),
            None => r.tag is None,
        },
        tag matches Some(t) ==> (r.tag matches Some(o) && o.key == t.key && o.color == t.color
            && o.usages == t.usages),
{
    match tag {
        Some(t) => TagMutationOutput { tag: Some(tag_definition_output(t)) },
        None => TagMutationOutput { tag: None },
    }
}

/// The most suggestions `suggest_tag_values` answers with.
pub const MAX_SUGGESTIONS: usize = 10;

/// The suggestions kept of those Traggo sent: the first `MAX_SUGGESTIONS`,
/// in Traggo's order; none when Traggo sent none.
pub open spec fn kept_suggestions(values: Option<Vec<String>>) -> Seq<String> {
    match values {
        Some(v) => if v@.len() <= MAX_SUGGESTIONS {
            v@
        } else {
            v@.take(MAX_SUGGESTIONS as int)
        },
        None => Seq::empty(),
    }
}

/// The result of `suggest_tag_values`: at most `MAX_SUGGESTIONS` values,
/// the first ones Traggo sent, in its order; absent suggestions show as none.
pub fn suggest_tag_values_output(values: Option<Vec<String>>) -> (r: SuggestTagValuesOutput)
    ensures
        r.values@ == kept_suggestions(values),
        r.values@.len() <= MAX_SUGGESTIONS,
        values is None ==> r.values@.len() == 0,
        values matches Some(v) ==> r.values@.len() == (if v@.len() <= 10 {
            v@.len()
        } else {
            10
        }),
        values matches Some(v) ==> forall|i: int|
            0 <= i < r.values@.len() ==> #[trigger] r.values@[i] == v@[i],
{
    match values {
        Some(v) => {
            let mut kept = v;
            kept.truncate(MAX_SUGGESTIONS);
            SuggestTagValuesOutput { values: kept }
        },
        None => SuggestTagValuesOutput { values: Vec::new() },
    }
}

/// The text a failing tool answers with: the error as it is displayed.
pub fn tool_error(error: AppError) -> (r: String)
    ensures
        r@ == display_text(error@),
{
    error.to_string()
}


/// Whether a text is an RFC 3339 timestamp.
pub open spec fn is_timestamp(text: Seq<char>) -> bool {
    rfc3339_instant(text) is Some
}

/// Whether `start` and `end` are timestamps and `start` comes strictly
/// first.
pub open spec fn ordered_timestamps(start: Seq<char>, end: Seq<char>) -> bool {
    &&& is_timestamp(start)
    &&& is_timestamp(end)
    &&& instant_before(rfc3339_instant(start)->0, rfc3339_instant(end)->0)
}

/// Whether every tag has a key and a value that are not blank.
pub open spec fn tags_filled(tags: Option<Vec<TagInput>>) -> bool {
    match tags {
        Some(t) => forall|i: int|
            0 <= i < t@.len() ==> !is_blank(#[trigger] t@[i].key@) && !is_blank(t@[i].value@),
        None => true,
    }
}

proof fn lemma_tag_list_checked(tags: Seq<TagInput>, i: int)
    requires
        0 <= i <= tags.len(),
        tag_list_error_from(tags, i) is None,
    ensures
        forall|j: int|
            i <= j < tags.len() ==> !is_blank(#[trigger] tags[j].key@) && !is_blank(
                tags[j].value@,
            ),
    decreases tags.len() - i,
{
    if i < tags.len() {
        lemma_tag_list_checked(tags, i + 1);
    }
}

proof fn lemma_ranges_checked(ranges: Seq<RangeInput>, i: int)
    requires
        0 <= i <= ranges.len(),
        range_list_error_from(ranges, i) is None,
    ensures
        forall|j: int|
            i <= j < ranges.len() ==> ordered_timestamps(
                #[trigger] ranges[j].start@,
                ranges[j].end@,
            ),
    decreases ranges.len() - i,
{
    if i < ranges.len() {
        lemma_ranges_checked(ranges, i + 1);
    }
}

proof fn lemma_tag_keys_checked(tags: Seq<String>, i: int)
    requires
        0 <= i <= tags.len(),
        tag_key_list_error_from(tags, i) is None,
    ensures
        forall|j: int| i <= j < tags.len() ==> !is_blank(#[trigger] tags[j]@),
    decreases tags.len() - i,
{
    if i < tags.len() {
        lemma_tag_keys_checked(tags, i + 1);
    }
}

/// `list_time_spans` sends Traggo only bounds that are timestamps, in order
/// when both are given, a position read from a valid token with no
/// negative offset or start id, and a page size between 1 and
/// [`MAX_PAGE_SIZE`].
pub proof fn lemma_list_time_spans_checked(input: ListTimeSpansInput)
    requires
        list_time_spans_error(input) is None,
    ensures
        input.from_inclusive matches Some(f) ==> is_timestamp(f@),
        input.to_inclusive matches Some(t) ==> is_timestamp(t@),
        (input.from_inclusive matches Some(f) && input.to_inclusive matches Some(t))
            ==> ordered_timestamps(input.from_inclusive->0@, input.to_inclusive->0@),
        input.cursor is Some ==> resume_point(input.cursor) is Some,
        resume_point(input.cursor) matches Some(c) ==> c.offset >= 0 && c.start_id >= 0,
        1 <= list_page_size(input) <= MAX_PAGE_SIZE,
{
}

/// `create_time_span` sends Traggo only a start that is a timestamp, an end
/// (when given) that is a later timestamp, and tags with keys and values.
pub proof fn lemma_create_time_span_checked(input: CreateTimeSpanInput)
    requires
        create_time_span_error(input) is None,
    ensures
        is_timestamp(input.start@),
        input.end matches Some(e) ==> ordered_timestamps(input.start@, e@),
        tags_filled(input.tags),
{
    if let Some(t) = input.tags {
        lemma_tag_list_checked(t@, 0);
    }
}

/// `update_time_span` sends Traggo only a positive id, a start that is a
/// timestamp, an end (when given) that is a later timestamp, an old start
/// (when given) that is a timestamp, and tags with keys and values.
pub proof fn lemma_update_time_span_checked(input: UpdateTimeSpanInput)
    requires
        update_time_span_error(input) is None,
    ensures
        input.id > 0,
        is_timestamp(input.start@),
        input.end matches Some(e) ==> ordered_timestamps(input.start@, e@),
        input.old_start matches Some(o) ==> is_timestamp(o@),
        tags_filled(input.tags),
{
    if let Some(t) = input.tags {
        lemma_tag_list_checked(t@, 0);
    }
}

/// `get_stats` sends Traggo only a nonempty list of ranges whose bounds are
/// timestamps in order, a nonempty list of tag keys none of which is
/// blank, and excluded and required tags with keys and values.
pub proof fn lemma_stats_checked(input: StatsInput)
    requires
        stats_error(input) is None,
    ensures
        input.ranges.len() > 0,
        input.tags.len() > 0,
        forall|i: int|
            0 <= i < input.ranges@.len() ==> ordered_timestamps(
                #[trigger] input.ranges@[i].start@,
                input.ranges@[i].end@,
            ),
        forall|i: int| 0 <= i < input.tags@.len() ==> !is_blank(#[trigger] input.tags@[i]@),
        tags_filled(input.exclude_tags),
        tags_filled(input.require_tags),
{
    lemma_ranges_checked(input.ranges@, 0);
    lemma_tag_keys_checked(input.tags@, 0);
    if let Some(t) = input.exclude_tags {
        lemma_tag_list_checked(t@, 0);
    }
    if let Some(t) = input.require_tags {
        lemma_tag_list_checked(t@, 0);
    }
}

/// A result that shows a time span carries its id, start, end, old start
/// and note, and its tags one for one, in order, with their keys and
/// values; a span without tags shows none.
pub proof fn lemma_shown_time_span(o: TimeSpanOutput, d: TimeSpanData)
    requires
        shows_time_span(o, d),
    ensures
        o.id == d.id,
        o.start == d.start,
        o.end == d.end,
        o.old_start == d.old_start,
        o.note == d.note,
        d.tags is None ==> o.tags@.len() == 0,
        d.tags matches Some(t) ==> o.tags@.len() == t@.len(),
        d.tags matches Some(t) ==> forall|i: int|
            0 <= i < t@.len() ==> (#[trigger] o.tags@[i]).key == t@[i].key && o.tags@[i].value
                == t@[i].value,
{
}

/// The tags a tool passes on to Traggo are the caller's, one for one and in
/// order, each with its key and value.
pub proof fn lemma_tags_passed_on(tags: Option<Vec<TagInput>>)
    ensures
        tags is None ==> tags_of(tags) is None,
        tags matches Some(t) ==> (tags_of(tags) matches Some(s) && s.len() == t@.len()
            && forall|i: int|
            0 <= i < t@.len() ==> (#[trigger] s[i]).key == t@[i].key && s[i].value
                == t@[i].value),
{
}

/// The ranges `get_stats` passes on to Traggo are the caller's: each
/// keeps its start and its end.
pub proof fn lemma_range_passed_on(r: RangeInput)
    ensures
        range_of(r).start == r.start,
        range_of(r).end == r.end,
{
}

/// The basic checks fail exactly on what they refuse: a required text
/// fails only when it is blank, a timestamp only when it does not parse,
/// and a pair of timestamps only when one does not parse or the first is
/// not strictly earlier.
pub proof fn lemma_checks_exact(name: Seq<char>, other: Seq<char>, a: Seq<char>, b: Seq<char>)
    ensures
        required_string_error(name, a) is None <==> !is_blank(a),
        rfc3339_error(name, a) is None <==> is_timestamp(a),
        time_order_error(name, a, other, b) is None <==> ordered_timestamps(a, b),
{
}

proof fn lemma_tag_list_accepted(tags: Seq<TagInput>, i: int)
    requires
        0 <= i <= tags.len(),
        forall|j: int|
            i <= j < tags.len() ==> !is_blank(#[trigger] tags[j].key@) && !is_blank(
                tags[j].value@,
            ),
    ensures
        tag_list_error_from(tags, i) is None,
    decreases tags.len() - i,
{
    if i < tags.len() {
        lemma_tag_list_accepted(tags, i + 1);
        assert(!is_blank(tags[i].key@));
    }
}

proof fn lemma_tags_accepted(tags: Option<Vec<TagInput>>)
    requires
        tags_filled(tags),
    ensures
        tags_error(opt_seq(tags)) is None,
{
    if let Some(t) = tags {
        assert forall|j: int| 0 <= j < t@.len() implies !is_blank(#[trigger] t@[j].key@)
            && !is_blank(t@[j].value@) by {
            assert(!is_blank(t@[j].key@));
        }
        lemma_tag_list_accepted(t@, 0);
    }
}

proof fn lemma_ranges_accepted(ranges: Seq<RangeInput>, i: int)
    requires
        0 <= i <= ranges.len(),
        forall|j: int|
            i <= j < ranges.len() ==> ordered_timestamps(
                #[trigger] ranges[j].start@,
                ranges[j].end@,
            ),
    ensures
        range_list_error_from(ranges, i) is None,
    decreases ranges.len() - i,
{
    if i < ranges.len() {
        lemma_ranges_accepted(ranges, i + 1);
        assert(ordered_timestamps(ranges[i].start@, ranges[i].end@));
    }
}

proof fn lemma_tag_keys_accepted(tags: Seq<String>, i: int)
    requires
        0 <= i <= tags.len(),
        forall|j: int| i <= j < tags.len() ==> !is_blank(#[trigger] tags[j]@),
    ensures
        tag_key_list_error_from(tags, i) is None,
    decreases tags.len() - i,
{
    if i < tags.len() {
        lemma_tag_keys_accepted(tags, i + 1);
        assert(!is_blank(tags[i]@));
    }
}

/// `create_time_span` accepts every start that is a timestamp, every end
/// (when given) that is a later timestamp and every list of tags with keys
/// and values, whatever the note, the empty note included.
pub proof fn lemma_create_time_span_accepted(input: CreateTimeSpanInput)
    requires
        is_timestamp(input.start@),
        input.end matches Some(e) ==> ordered_timestamps(input.start@, e@),
        tags_filled(input.tags),
    ensures
        create_time_span_error(input) is None,
{
    lemma_tags_accepted(input.tags);
}

/// `update_time_span` accepts every positive id, start timestamp, later
/// end (when given), old start timestamp (when given) and list of tags
/// with keys and values; the old start may lie before, at or after the
/// start, and the note may be anything.
pub proof fn lemma_update_time_span_accepted(input: UpdateTimeSpanInput)
    requires
        input.id > 0,
        is_timestamp(input.start@),
        input.end matches Some(e) ==> ordered_timestamps(input.start@, e@),
        input.old_start matches Some(o) ==> is_timestamp(o@),
        tags_filled(input.tags),
    ensures
        update_time_span_error(input) is None,
{
    lemma_tags_accepted(input.tags);
}

/// `get_stats` accepts every nonempty list of ranges whose bounds are
/// timestamps in order, each range taken by itself (ranges may overlap,
/// touch or come in any order), every nonempty list of tag keys none of
/// which is blank, and excluded and required tags with keys and values.
pub proof fn lemma_stats_accepted(input: StatsInput)
    requires
        input.ranges.len() > 0,
        input.tags.len() > 0,
        forall|i: int|
            0 <= i < input.ranges@.len() ==> ordered_timestamps(
                #[trigger] input.ranges@[i].start@,
                input.ranges@[i].end@,
            ),
        forall|i: int| 0 <= i < input.tags@.len() ==> !is_blank(#[trigger] input.tags@[i]@),
        tags_filled(input.exclude_tags),
        tags_filled(input.require_tags),
    ensures
        stats_error(input) is None,
{
    lemma_ranges_accepted(input.ranges@, 0);
    lemma_tag_keys_accepted(input.tags@, 0);
    lemma_tags_accepted(input.exclude_tags);
    lemma_tags_accepted(input.require_tags);
}

/// The page size `list_time_spans` asks for: the one given wins; without
/// one, the token's; without either, [`DEFAULT_PAGE_SIZE`].
pub proof fn lemma_list_page_size_chosen(input: ListTimeSpansInput)
    ensures
        input.page_size matches Some(p) ==> list_page_size(input) == p,
        input.page_size is None ==> (resume_point(input.cursor) matches Some(c)
            ==> list_page_size(input) == c.page_size),
        input.page_size is None && resume_point(input.cursor) is None ==> list_page_size(input)
            == DEFAULT_PAGE_SIZE,
{
}

/// `list_time_spans` accepts every pair of bounds that are timestamps (in
/// order when both are given), every token that decodes to a position with
/// no negative offset or start id, whatever its page size when another is
/// given, and every page size between 1 and [`MAX_PAGE_SIZE`].
pub proof fn lemma_list_time_spans_accepted(input: ListTimeSpansInput)
    requires
        input.from_inclusive matches Some(f) ==> is_timestamp(f@),
        input.to_inclusive matches Some(t) ==> is_timestamp(t@),
        (input.from_inclusive matches Some(f) && input.to_inclusive matches Some(t))
            ==> ordered_timestamps(input.from_inclusive->0@, input.to_inclusive->0@),
        input.cursor is Some ==> (resume_point(input.cursor) matches Some(c) && c.offset >= 0
            && c.start_id >= 0),
        1 <= list_page_size(input) <= MAX_PAGE_SIZE,
    ensures
        list_time_spans_error(input) is None,
{
}

/// `stop_timer` accepts every positive id with an end that is a timestamp.
pub proof fn lemma_stop_timer_accepted(input: StopTimerInput)
    requires
        input.id > 0,
        is_timestamp(input.end@),
    ensures
        stop_timer_error(input) is None,
{
}

/// `update_tag` accepts every key, new key (when given) and color that
/// are not blank.
pub proof fn lemma_update_tag_accepted(input: UpdateTagInput)
    requires
        !is_blank(input.key@),
        input.new_key matches Some(k) ==> !is_blank(k@),
        !is_blank(input.color@),
    ensures
        update_tag_error(input) is None,
{
}

} // verus!
