use loglens::cursor::{LogError, Logs, RawEvent};

fn raw(ts: i64, msg: &str) -> RawEvent {
    RawEvent {
        timestamp: Some(ts),
        message: Some(String::from(msg)),
    }
}

fn resolved_cursor(snip: Option<usize>) -> Logs {
    Logs::new(String::from("group"), Some(String::from("stream")), snip)
}

#[test]
fn new_cursor_without_stream_needs_resolution() {
    let cursor = Logs::new(String::from("group"), None, None);
    assert!(cursor.needs_stream());
}

#[test]
fn new_cursor_with_stream_is_resolved() {
    let cursor = resolved_cursor(None);
    assert!(!cursor.needs_stream());
}

#[test]
fn stream_request_asks_for_latest_stream_only() {
    let cursor = Logs::new(String::from("group"), None, None);
    let req = cursor.stream_request();
    assert_eq!(req.group, "group");
    assert!(req.latest_first);
    assert_eq!(req.limit, 1);
}

#[test]
fn resolving_without_streams_is_not_found() {
    let mut cursor = Logs::new(String::from("group"), None, None);
    let res = cursor.resolve_stream(None);
    assert!(matches!(res, Err(LogError::NotFound)));
    assert!(cursor.needs_stream());
}

#[test]
fn resolution_caches_the_first_stream() {
    let mut cursor = Logs::new(String::from("group"), None, None);
    assert!(cursor.resolve_stream(Some(String::from("first"))).is_ok());
    assert!(!cursor.needs_stream());
    // A later resolution attempt never replaces the cached stream.
    assert!(cursor.resolve_stream(Some(String::from("second"))).is_ok());
    let req = cursor.begin_page();
    assert_eq!(req.stream, "first");
}

#[test]
fn first_page_request_carries_no_token_and_no_filter() {
    let mut cursor = resolved_cursor(None);
    let req = cursor.begin_page();
    assert_eq!(req.group, "group");
    assert_eq!(req.stream, "stream");
    assert_eq!(req.filter, None);
    assert_eq!(req.token, None);
    assert_eq!(req.limit, 1000);
}

#[test]
fn page_request_reuses_token_within_one_filter() {
    let mut cursor = resolved_cursor(None);
    let _ = cursor.begin_page();
    let entries = cursor.finish_page(vec![raw(1, "a")], Some(String::from("tok1")));
    assert_eq!(entries.len(), 1);
    let req = cursor.begin_page();
    assert_eq!(req.token, Some(String::from("tok1")));
}

#[test]
fn set_query_clears_the_pagination_token() {
    let mut cursor = resolved_cursor(None);
    let _ = cursor.begin_page();
    let _ = cursor.finish_page(vec![raw(1, "a")], Some(String::from("tok1")));
    cursor.set_query(String::from("error"));
    let req = cursor.begin_page();
    assert_eq!(req.filter, Some(String::from("error")));
    assert_eq!(req.token, None);
}

#[test]
fn two_filters_never_share_a_token() {
    let mut cursor = resolved_cursor(None);
    cursor.set_query(String::from("first"));
    let _ = cursor.begin_page();
    let _ = cursor.finish_page(vec![raw(1, "a")], Some(String::from("tok-first")));
    cursor.set_query(String::from("second"));
    let _ = cursor.begin_page();
    let _ = cursor.finish_page(vec![raw(2, "b")], Some(String::from("tok-second")));
    cursor.set_query(String::from("third"));
    let req = cursor.begin_page();
    // Neither prior filter's token leaks into the new result sequence.
    assert_eq!(req.token, None);
}

#[test]
fn absent_token_restarts_without_error() {
    let mut cursor = resolved_cursor(None);
    let _ = cursor.begin_page();
    let entries = cursor.finish_page(vec![raw(1, "a")], None);
    assert_eq!(entries.len(), 1);
    // The next fetch omits the token: same fetch again, not a failure.
    let req = cursor.begin_page();
    assert_eq!(req.token, None);
}

#[test]
fn finish_page_returns_entries_in_order_and_trimmed() {
    let mut cursor = resolved_cursor(Some(2));
    let _ = cursor.begin_page();
    let entries = cursor.finish_page(vec![raw(100, "xxabc"), raw(200, "xxdef")], None);
    assert_eq!(entries.len(), 2);
    assert_eq!(entries[0].timestamp, 100);
    assert_eq!(entries[0].message, "abc");
    assert_eq!(entries[1].timestamp, 200);
    assert_eq!(entries[1].message, "def");
}

#[test]
fn finish_page_drops_incomplete_events() {
    let mut cursor = resolved_cursor(None);
    let _ = cursor.begin_page();
    let events = vec![
        RawEvent { timestamp: None, message: Some(String::from("no ts")) },
        RawEvent { timestamp: Some(5), message: None },
        raw(7, "kept"),
    ];
    let entries = cursor.finish_page(events, None);
    assert_eq!(entries.len(), 1);
    assert_eq!(entries[0].timestamp, 7);
    assert_eq!(entries[0].message, "kept");
}

#[test]
fn empty_page_is_success_not_error() {
    let mut cursor = resolved_cursor(None);
    let _ = cursor.begin_page();
    let entries = cursor.finish_page(Vec::new(), None);
    assert!(entries.is_empty());
}

#[test]
fn context_request_spans_the_window() {
    let cursor = resolved_cursor(None);
    let req = cursor.context_request(5000);
    assert_eq!(req.group, "group");
    assert_eq!(req.stream, "stream");
    assert_eq!(req.start_time, 4000);
    assert_eq!(req.end_time, 6000);
    assert_eq!(req.limit, 40);
}

#[test]
fn context_request_ignores_the_filter() {
    let mut cursor = resolved_cursor(None);
    let before = cursor.context_request(5000);
    cursor.set_query(String::from("error"));
    let after = cursor.context_request(5000);
    assert_eq!(before.start_time, after.start_time);
    assert_eq!(before.end_time, after.end_time);
    assert_eq!(before.group, after.group);
    assert_eq!(before.stream, after.stream);
    assert_eq!(before.limit, after.limit);
}

#[test]
fn context_request_clamps_at_the_ends_of_time() {
    let cursor = resolved_cursor(None);
    let low = cursor.context_request(i64::MIN + 1);
    assert_eq!(low.start_time, i64::MIN);
    assert_eq!(low.end_time, i64::MIN + 1001);
    let high = cursor.context_request(i64::MAX - 1);
    assert_eq!(high.start_time, i64::MAX - 1001);
    assert_eq!(high.end_time, i64::MAX);
}

#[test]
fn context_keeps_only_entries_inside_the_window() {
    let cursor = resolved_cursor(None);
    let events = vec![
        raw(3999, "too early"),
        raw(4000, "first in"),
        raw(5000, "middle"),
        raw(6000, "last in"),
        raw(6001, "too late"),
        RawEvent { timestamp: None, message: Some(String::from("no ts")) },
    ];
    let entries = cursor.apply_context(5000, events);
    assert_eq!(entries.len(), 3);
    assert_eq!(entries[0].timestamp, 4000);
    assert_eq!(entries[1].timestamp, 5000);
    assert_eq!(entries[2].timestamp, 6000);
    for e in &entries {
        assert!(4000 <= e.timestamp && e.timestamp <= 6000);
    }
}

#[test]
fn context_trims_messages_like_pages() {
    let cursor = resolved_cursor(Some(3));
    let entries = cursor.apply_context(100, vec![raw(100, "xyzcontext")]);
    assert_eq!(entries.len(), 1);
    assert_eq!(entries[0].message, "context");
}
