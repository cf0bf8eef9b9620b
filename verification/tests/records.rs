//! Tests for the history-record serialization.

use postsmith::body::BodyContentStore;
use postsmith::headers::{HeaderList, RequestHeader};
use postsmith::records::{
    history_text, join_pairs, record_line, serialize_body, serialize_headers, HistoryRecord,
};
use postsmith::tabs::RequestHeaders;

fn record(date: &str, action: &str, url: &str, body: &str, headers: &str) -> HistoryRecord {
    HistoryRecord {
        date: date.to_string(),
        action: action.to_string(),
        url: url.to_string(),
        body_content: body.to_string(),
        headers: headers.to_string(),
    }
}

#[test]
fn join_pairs_formats_and_separates() {
    assert_eq!(join_pairs(&vec![]), "");
    assert_eq!(join_pairs(&vec![("a".to_string(), "1".to_string())]), "a: 1");
    assert_eq!(
        join_pairs(&vec![
            ("a".to_string(), "1".to_string()),
            ("b".to_string(), "2".to_string()),
        ]),
        "a: 1, b: 2"
    );
}

#[test]
fn serialize_headers_lists_entries_in_order() {
    let mut list = HeaderList::new();
    assert_eq!(serialize_headers(&list), "");
    list.add(RequestHeader::new(
        "Content-Type".to_string(),
        "application/json".to_string(),
        String::new(),
    ));
    list.add(RequestHeader::new(
        "Authorization".to_string(),
        "Bearer token".to_string(),
        String::new(),
    ));
    assert_eq!(
        serialize_headers(&list),
        "Content-Type: application/json, Authorization: Bearer token"
    );
}

#[test]
fn serialize_body_lists_committed_tabs_in_display_order() {
    let mut store = BodyContentStore::new();
    assert_eq!(serialize_body(&store), "");
    store.commit(RequestHeaders::Graphql, "query {}".to_string());
    store.commit(RequestHeaders::Raw, "hello".to_string());
    assert_eq!(serialize_body(&store), "raw: hello, GraphQL: query {}");
    store.commit(RequestHeaders::NoBody, "ignored".to_string());
    assert_eq!(serialize_body(&store), "raw: hello, GraphQL: query {}");
}

#[test]
fn record_line_joins_the_five_fields() {
    let r = record("2024-01-01", "GET", "http://a", "raw: x", "k: v");
    assert_eq!(
        record_line(&r),
        "2024-01-01 - GET - http://a - raw: x - k: v\n"
    );
}

#[test]
fn history_text_runs_newest_first() {
    let records = vec![
        record("d1", "GET", "u1", "", ""),
        record("d2", "POST", "u2", "", ""),
    ];
    assert_eq!(
        history_text(&records),
        "d2 - POST - u2 -  - \nd1 - GET - u1 -  - \n"
    );
    assert_eq!(history_text(&vec![]), "");
}
