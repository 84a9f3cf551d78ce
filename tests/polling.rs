use trino::json::{Json, JsonNumber};
use trino::poll::{collect_rows, Request, Session};
use trino::response::QueryResults;
use trino::Client;

fn stats(state: &str) -> String {
    format!(
        r#"{{"state": "{}", "queued": false, "scheduled": true, "nodes": 0,
            "totalSplits": 0, "queuedSplits": 0, "runningSplits": 0, "completedSplits": 0,
            "cpuTimeMillis": 0, "wallTimeMillis": 0, "queuedTimeMillis": 0, "elapsedTimeMillis": 0,
            "processedRows": 0, "processedBytes": 0, "physicalInputBytes": 0,
            "peakMemoryBytes": 0, "spilledBytes": 0}}"#,
        state
    )
}

fn page(next: Option<&str>, data: Option<&str>, state: &str) -> QueryResults {
    let mut text = String::from(r#"{"id": "q1", "infoUri": "...", "#);
    if let Some(uri) = next {
        text.push_str(&format!(r#""nextUri": "{}", "#, uri));
    }
    if let Some(rows) = data {
        text.push_str(&format!(r#""data": {}, "#, rows));
    }
    text.push_str(&format!(r#""stats": {}, "warnings": []}}"#, stats(state)));
    QueryResults::from_text(&text).unwrap()
}

fn num(n: u64) -> Json {
    Json::Number(JsonNumber::Unsigned(n))
}

fn word(s: &str) -> Json {
    Json::Str(String::from(s))
}

/// Feeds the pages in order, answering each request with the next page; returns the
/// requests issued and the rows gathered.
fn drive(pages: Vec<QueryResults>) -> (Vec<Request>, Vec<Json>) {
    let mut session = Session::new();
    let mut requests = Vec::new();
    let mut pages = pages.into_iter();
    while let Some(request) = session.next_request() {
        requests.push(request);
        session.receive(pages.next().expect("a request with no page left"));
    }
    assert!(session.is_done());
    (requests, session.into_rows())
}

#[test]
fn two_page_scenario() {
    let first = page(Some("http://h/v2"), None, "QUEUED");
    let last = page(None, Some(r#"[[1, "a"], [2, "b"]]"#), "FINISHED");
    let (requests, rows) = drive(vec![first, last]);
    assert_eq!(requests, vec![Request::Submit, Request::Follow(String::from("http://h/v2"))]);
    assert_eq!(
        rows,
        vec![Json::Array(vec![num(1), word("a")]), Json::Array(vec![num(2), word("b")])]
    );
}

#[test]
fn chain_of_pages_is_followed_to_its_end() {
    let pages = vec![
        page(Some("http://h/1"), None, "QUEUED"),
        page(Some("http://h/2"), Some("[[1]]"), "RUNNING"),
        page(Some("http://h/3"), Some("[[2], [3]]"), "RUNNING"),
        page(None, Some("[[4]]"), "FINISHED"),
    ];
    let (requests, rows) = drive(pages);
    assert_eq!(requests.len(), 4);
    assert_eq!(requests[0], Request::Submit);
    assert_eq!(requests[1], Request::Follow(String::from("http://h/1")));
    assert_eq!(requests[2], Request::Follow(String::from("http://h/2")));
    assert_eq!(requests[3], Request::Follow(String::from("http://h/3")));
    let expected: Vec<Json> = (1..=4).map(|n| Json::Array(vec![num(n)])).collect();
    assert_eq!(rows, expected);
}

#[test]
fn page_without_data_is_skipped() {
    let pages = vec![
        page(Some("http://h/1"), None, "QUEUED"),
        page(Some("http://h/2"), None, "RUNNING"),
        page(Some("http://h/3"), Some("[[9]]"), "RUNNING"),
        page(Some("http://h/4"), None, "FINISHING"),
        page(None, None, "FINISHED"),
    ];
    let (requests, rows) = drive(pages);
    assert_eq!(requests.len(), 5);
    assert_eq!(rows, vec![Json::Array(vec![num(9)])]);
}

#[test]
fn single_terminal_response_ends_at_once() {
    let (requests, rows) = drive(vec![page(None, Some("[[5]]"), "FAILED")]);
    assert_eq!(requests, vec![Request::Submit]);
    assert_eq!(rows, vec![Json::Array(vec![num(5)])]);
}

#[test]
fn fresh_session_submits_first() {
    let session = Session::new();
    assert!(!session.is_done());
    assert_eq!(session.next_request(), Some(Request::Submit));
}

#[test]
fn one_failed_row_fails_all() {
    assert_eq!(collect_rows(vec![Some(1), None, Some(3)]), None);
    assert_eq!(collect_rows(vec![None::<u8>]), None);
}

#[test]
fn converted_rows_are_kept_in_order() {
    assert_eq!(collect_rows(vec![Some(3), Some(1), Some(2)]), Some(vec![3, 1, 2]));
    assert_eq!(collect_rows(Vec::<Option<u8>>::new()), Some(vec![]));
}

#[test]
fn client_endpoints() {
    let client = Client::new("http://localhost", 8080, "user");
    assert_eq!(client.statement_uri(), "http://localhost:8080/v1/statement");
    assert_eq!(client.info_uri(), "http://localhost:8080/v1/info");
    assert_eq!(client.user, "user");
    let client = Client::new("http://h", 0, "u");
    assert_eq!(client.statement_uri(), "http://h:0/v1/statement");
    let client = Client::new("http://h", u32::MAX, "u");
    assert_eq!(client.info_uri(), "http://h:4294967295/v1/info");
}
