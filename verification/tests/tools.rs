use traggo_mcp::cursor::PageCursor;
use traggo_mcp::error::AppError;
use traggo_mcp::graphql::{CursorData, TagData, TimeSpanData, TimeSpanPage, TimeSpanTag};
use traggo_mcp::tools::{
    create_tag_variables, create_time_span_variables, list_time_spans_output,
    list_time_spans_variables, list_timers_output, remove_tag_variables,
    remove_time_span_variables, stats_variables, stop_timer_variables,
    suggest_tag_values_output, suggest_tag_values_variables, tag_mutation_output, tags_output,
    time_span_mutation_output, tool_error, update_tag_variables, update_time_span_variables,
    validate_positive_id, validate_tags, CreateTagInput, CreateTimeSpanInput, ListTimeSpansInput,
    RangeInput, RemoveTagInput, RemoveTimeSpanInput, StatsInput, StopTimerInput,
    SuggestTagValuesInput, TagInput, UpdateTagInput, UpdateTimeSpanInput,
};

fn msg(err: AppError) -> String {
    err.to_string()
}

fn tag(key: &str, value: &str) -> TagInput {
    TagInput { key: key.into(), value: value.into() }
}

fn list_input() -> ListTimeSpansInput {
    ListTimeSpansInput {
        from_inclusive: Some("2026-01-01T00:00:00Z".into()),
        to_inclusive: Some("2026-01-02T00:00:00Z".into()),
        page_size: None,
        cursor: None,
    }
}

#[test]
fn list_time_spans_fills_in_the_page_size() {
    let v = list_time_spans_variables(list_input()).expect("valid");
    let cursor = v.cursor.expect("cursor");
    assert_eq!(cursor.page_size, Some(50));
    assert_eq!(cursor.offset, None);
    assert_eq!(cursor.start_id, None);
    assert_eq!(v.from_inclusive.as_deref(), Some("2026-01-01T00:00:00Z"));
}

#[test]
fn list_time_spans_resumes_from_a_token() {
    let token = PageCursor { offset: 100, start_id: 77, page_size: 25 }.encode().unwrap();
    let mut input = list_input();
    input.cursor = Some(token.clone());
    let cursor = list_time_spans_variables(input).expect("valid").cursor.expect("cursor");
    assert_eq!((cursor.offset, cursor.start_id, cursor.page_size), (Some(100), Some(77), Some(25)));
    let mut input = list_input();
    input.cursor = Some(token);
    input.page_size = Some(10);
    let cursor = list_time_spans_variables(input).expect("valid").cursor.expect("cursor");
    assert_eq!(cursor.page_size, Some(10));
}

#[test]
fn list_time_spans_checks_in_order() {
    let mut input = list_input();
    input.to_inclusive = Some("2025-12-31T00:00:00Z".into());
    input.cursor = Some("garbage!".into());
    assert_eq!(
        msg(list_time_spans_variables(input).unwrap_err()),
        "validation error: from_inclusive must be before to_inclusive"
    );
    let mut input = list_input();
    input.cursor = Some("garbage!".into());
    input.page_size = Some(0);
    assert_eq!(
        msg(list_time_spans_variables(input).unwrap_err()),
        "validation error: cursor is not a valid pagination token"
    );
    let mut input = list_input();
    input.cursor = Some(PageCursor { offset: 3, start_id: -2, page_size: 0 }.encode().unwrap());
    assert_eq!(
        msg(list_time_spans_variables(input).unwrap_err()),
        "validation error: start_id must be non-negative"
    );
    let mut input = list_input();
    input.cursor = Some(PageCursor { offset: 3, start_id: 2, page_size: 500 }.encode().unwrap());
    assert!(msg(list_time_spans_variables(input).unwrap_err()).contains("page_size"));
    let mut input = list_input();
    input.page_size = Some(201);
    assert!(msg(list_time_spans_variables(input).unwrap_err()).contains("page_size"));
    let mut input = list_input();
    input.from_inclusive = None;
    input.to_inclusive = Some("later".into());
    assert!(msg(list_time_spans_variables(input).unwrap_err()).starts_with("validation error: to_inclusive must be an RFC3339"));
}

#[test]
fn next_page_token_round_trips_through_list_time_spans() {
    let page = TimeSpanPage {
        time_spans: vec![span(1, None)],
        cursor: CursorData { has_more: true, offset: 50, start_id: 1234, page_size: 50 },
    };
    let out = list_time_spans_output(page);
    let token = out.cursor.next_cursor.expect("more pages");
    assert!(!token.contains("1234"));
    let mut input = list_input();
    input.cursor = Some(token);
    let cursor = list_time_spans_variables(input).expect("valid").cursor.expect("cursor");
    assert_eq!((cursor.offset, cursor.start_id, cursor.page_size), (Some(50), Some(1234), Some(50)));
}

#[test]
fn create_time_span_checks_start_end_and_tags() {
    let ok = create_time_span_variables(CreateTimeSpanInput {
        start: "2026-01-01T09:00:00Z".into(),
        end: None,
        tags: Some(vec![tag("project", "verus")]),
        note: "n".into(),
    })
    .expect("valid");
    let tags = ok.tags.expect("tags");
    assert_eq!(tags.len(), 1);
    assert_eq!((tags[0].key.as_str(), tags[0].value.as_str()), ("project", "verus"));
    assert_eq!(ok.note, "n");
    let err = create_time_span_variables(CreateTimeSpanInput {
        start: "2026-01-01T09:00:00Z".into(),
        end: Some("2026-01-01T08:00:00Z".into()),
        tags: None,
        note: String::new(),
    })
    .unwrap_err();
    assert_eq!(msg(err), "validation error: start must be before end");
    let err = create_time_span_variables(CreateTimeSpanInput {
        start: "2026-01-01T09:00:00Z".into(),
        end: None,
        tags: Some(vec![tag("a", "b"), tag("c", " ")]),
        note: String::new(),
    })
    .unwrap_err();
    assert_eq!(msg(err), "validation error: tags[1].value must not be empty");
}

#[test]
fn update_time_span_checks_the_id_first() {
    let err = update_time_span_variables(UpdateTimeSpanInput {
        id: 0,
        start: "bad".into(),
        end: None,
        tags: None,
        old_start: None,
        note: String::new(),
    })
    .unwrap_err();
    assert_eq!(msg(err), "validation error: id must be positive");
    let err = update_time_span_variables(UpdateTimeSpanInput {
        id: 3,
        start: "2026-01-01T09:00:00Z".into(),
        end: None,
        tags: None,
        old_start: Some("then".into()),
        note: String::new(),
    })
    .unwrap_err();
    assert!(msg(err).starts_with("validation error: old_start must be an RFC3339 timestamp"));
    let v = update_time_span_variables(UpdateTimeSpanInput {
        id: 3,
        start: "2026-01-01T09:00:00Z".into(),
        end: Some("2026-01-01T10:00:00Z".into()),
        tags: None,
        old_start: Some("2026-01-01T08:00:00Z".into()),
        note: "x".into(),
    })
    .expect("valid");
    assert_eq!(v.id, 3);
    assert!(v.tags.is_none());
}

#[test]
fn timer_and_removal_need_positive_ids() {
    assert_eq!(
        msg(stop_timer_variables(StopTimerInput { id: -4, end: "x".into() }).unwrap_err()),
        "validation error: id must be positive"
    );
    assert!(msg(stop_timer_variables(StopTimerInput { id: 4, end: "x".into() }).unwrap_err())
        .contains("end must be an RFC3339 timestamp"));
    let v = stop_timer_variables(StopTimerInput { id: 4, end: "2026-01-01T10:00:00Z".into() })
        .expect("valid");
    assert_eq!(v.id, 4);
    assert!(remove_time_span_variables(RemoveTimeSpanInput { id: 0 }).is_err());
    assert_eq!(remove_time_span_variables(RemoveTimeSpanInput { id: 9 }).unwrap().id, 9);
    assert!(validate_positive_id("id", 1).is_ok());
}

#[test]
fn tag_tools_need_keys_and_colors() {
    assert_eq!(
        msg(create_tag_variables(CreateTagInput { key: " ".into(), color: "".into() }).unwrap_err()),
        "validation error: key must not be empty"
    );
    assert_eq!(
        msg(create_tag_variables(CreateTagInput { key: "k".into(), color: "".into() }).unwrap_err()),
        "validation error: color must not be empty"
    );
    assert_eq!(
        msg(update_tag_variables(UpdateTagInput { key: "k".into(), new_key: Some("".into()), color: "".into() }).unwrap_err()),
        "validation error: new_key must not be empty"
    );
    let v = update_tag_variables(UpdateTagInput { key: "k".into(), new_key: None, color: "#fff".into() })
        .expect("valid");
    assert_eq!(v.color, "#fff");
    assert!(remove_tag_variables(RemoveTagInput { key: "".into() }).is_err());
    let s = suggest_tag_values_variables(SuggestTagValuesInput { key: "proj".into(), query: "".into() })
        .expect("empty query is fine");
    assert_eq!(s.key, "proj");
    assert!(suggest_tag_values_variables(SuggestTagValuesInput { key: "".into(), query: "q".into() }).is_err());
}

fn stats_input() -> StatsInput {
    StatsInput {
        ranges: vec![RangeInput { start: "2026-01-01T00:00:00Z".into(), end: "2026-01-02T00:00:00Z".into() }],
        tags: vec!["project".into()],
        exclude_tags: None,
        require_tags: None,
    }
}

#[test]
fn stats_needs_ranges_and_tags() {
    let mut input = stats_input();
    input.ranges.clear();
    input.tags.clear();
    assert_eq!(msg(stats_variables(input).unwrap_err()), "validation error: ranges must not be empty");
    let mut input = stats_input();
    input.tags.clear();
    assert_eq!(msg(stats_variables(input).unwrap_err()), "validation error: tags must not be empty");
}

#[test]
fn stats_names_the_failing_element() {
    let mut input = stats_input();
    input.ranges.push(RangeInput { start: "2026-01-03T00:00:00Z".into(), end: "2026-01-02T00:00:00Z".into() });
    assert_eq!(
        msg(stats_variables(input).unwrap_err()),
        "validation error: ranges[1].start must be before ranges[1].end"
    );
    let mut input = stats_input();
    input.tags.push("\t".into());
    assert_eq!(msg(stats_variables(input).unwrap_err()), "validation error: tags[1] must not be empty");
    let mut input = stats_input();
    input.require_tags = Some(vec![tag("", "x")]);
    assert_eq!(msg(stats_variables(input).unwrap_err()), "validation error: tags[0].key must not be empty");
}

#[test]
fn stats_passes_everything_on() {
    let mut input = stats_input();
    input.exclude_tags = Some(vec![tag("a", "b")]);
    let v = stats_variables(input).expect("valid");
    let ranges = v.ranges.expect("ranges");
    assert_eq!(ranges.len(), 1);
    assert_eq!(ranges[0].end, "2026-01-02T00:00:00Z");
    assert_eq!(v.tags, Some(vec!["project".to_string()]));
    assert_eq!(v.exclude_tags.expect("exclude")[0].value, "b");
    assert!(v.require_tags.is_none());
}

#[test]
fn validate_tags_accepts_none_and_names_keys() {
    assert!(validate_tags(None).is_ok());
    let tags = vec![tag("", "")];
    assert_eq!(msg(validate_tags(Some(&tags)).unwrap_err()), "validation error: tags[0].key must not be empty");
}

fn span(id: i64, tags: Option<Vec<TimeSpanTag>>) -> TimeSpanData {
    TimeSpanData {
        id,
        start: "s".into(),
        end: None,
        old_start: Some("o".into()),
        note: "note".into(),
        tags,
    }
}

#[test]
fn outputs_carry_traggo_data() {
    let page = TimeSpanPage {
        time_spans: vec![
            span(1, Some(vec![TimeSpanTag { key: "k".into(), value: "v".into() }])),
            span(2, None),
        ],
        cursor: CursorData { has_more: true, offset: 2, start_id: 1, page_size: 2 },
    };
    let out = list_time_spans_output(page);
    assert_eq!(out.time_spans.len(), 2);
    assert_eq!(out.time_spans[0].tags[0].value, "v");
    assert!(out.time_spans[1].tags.is_empty());
    assert_eq!(out.time_spans[1].old_start.as_deref(), Some("o"));
    assert!(out.cursor.has_more);
    assert_eq!(
        out.cursor.next_cursor.as_deref(),
        Some(PageCursor { offset: 2, start_id: 1, page_size: 2 }.encode().unwrap().as_str())
    );
    let last = list_time_spans_output(TimeSpanPage {
        time_spans: Vec::new(),
        cursor: CursorData { has_more: false, offset: 9, start_id: 1, page_size: 2 },
    });
    assert!(!last.cursor.has_more);
    assert!(last.cursor.next_cursor.is_none());
    assert!(list_timers_output(None).timers.is_empty());
    assert_eq!(list_timers_output(Some(vec![span(5, None)])).timers[0].id, 5);
    assert!(time_span_mutation_output(None).time_span.is_none());
    assert_eq!(time_span_mutation_output(Some(span(6, None))).time_span.unwrap().note, "note");
    let tags = tags_output(Some(vec![TagData { key: "k".into(), color: "c".into(), usages: 4 }]));
    assert_eq!(tags.tags[0].usages, 4);
    assert!(tags_output(None).tags.is_empty());
    assert_eq!(tag_mutation_output(Some(TagData { key: "k".into(), color: "c".into(), usages: 1 })).tag.unwrap().color, "c");
    assert!(suggest_tag_values_output(None).values.is_empty());
    assert_eq!(suggest_tag_values_output(Some(vec!["a".into()])).values, vec!["a".to_string()]);
}

#[test]
fn tool_errors_are_displayed() {
    assert_eq!(tool_error(AppError::Http("down".into())), "http error: down");
}

#[test]
fn suggestions_are_capped_at_ten() {
    let values: Vec<String> = (0..11).map(|i| format!("v{i}")).collect();
    let out = suggest_tag_values_output(Some(values.clone()));
    assert_eq!(out.values.len(), 10);
    assert_eq!(out.values, values[..10].to_vec());
    let ten: Vec<String> = values[..10].to_vec();
    assert_eq!(suggest_tag_values_output(Some(ten.clone())).values, ten);
}
