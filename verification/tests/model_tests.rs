use keyword_crawler::clock::{budget_spent, millis_u64};
use keyword_crawler::error::{
    fetch_failure, CrawlerError, ErrorKind, STATUS_BAD_REQUEST, STATUS_OK,
};
use keyword_crawler::model::CrawlRequest;

fn request() -> CrawlRequest {
    CrawlRequest {
        url: "example.com".to_string(),
        keywords: vec![],
        max_pages: None,
        max_depth: None,
        timeout_seconds: None,
        follow_pagination: None,
        include_subdomains: None,
    }
}

#[test]
fn defaults_of_a_request() {
    let mut r = request();
    assert_eq!(r.effective_max_pages(), 100);
    assert_eq!(r.effective_max_depth(), 3);
    assert_eq!(r.effective_timeout_seconds(), 60);
    assert!(!r.follows_pagination());
    assert!(!r.includes_subdomains());
    r.follow_pagination = Some(false);
    assert_eq!(r.effective_max_pages(), 10);
    assert!(!r.follows_pagination());
    r.follow_pagination = Some(true);
    assert_eq!(r.effective_max_pages(), 10);
    assert!(r.follows_pagination());
    r.max_pages = Some(0);
    r.max_depth = Some(9);
    r.timeout_seconds = Some(1);
    r.include_subdomains = Some(true);
    assert_eq!(r.effective_max_pages(), 0);
    assert_eq!(r.effective_max_depth(), 9);
    assert_eq!(r.effective_timeout_seconds(), 1);
    assert!(r.includes_subdomains());
}

fn all_errors() -> Vec<CrawlerError> {
    vec![
        CrawlerError::HttpError("a".to_string()),
        CrawlerError::RequestError("b".to_string()),
        CrawlerError::UrlParseError("c".to_string()),
        CrawlerError::UrlError("d".to_string()),
        CrawlerError::SelectorError("e".to_string()),
        CrawlerError::TimeoutError,
        CrawlerError::CrawlError("f".to_string()),
        CrawlerError::DateParsingError("g".to_string()),
        CrawlerError::Other("h".to_string()),
    ]
}

#[test]
fn errors_describe_themselves() {
    let got: Vec<String> = all_errors().iter().map(|e| e.message()).collect();
    assert_eq!(
        got,
        vec![
            "HTTP request failed: a",
            "Request error: b",
            "URL parsing failed: c",
            "URL error: d",
            "Selector error: e",
            "Crawling timeout",
            "Crawling failed: f",
            "Date parsing failed: g",
            "Other error: h",
        ]
    );
}

#[test]
fn errors_are_answered_as_bad_requests_but_for_timeouts() {
    let got: Vec<(u16, String)> =
        all_errors().iter().map(|e| (e.status_code(), e.response_message())).collect();
    let expected: Vec<(u16, String)> = vec![
        (400, "HTTP error: a"),
        (400, "Request error: b"),
        (400, "URL parse error: c"),
        (400, "Invalid URL: d"),
        (400, "Selector error: e"),
        (200, "Crawling exceeded the time limit"),
        (400, "Crawl error: f"),
        (400, "Date parsing error: g"),
        (400, "Other error: h"),
    ]
    .into_iter()
    .map(|(code, text)| (code, text.to_string()))
    .collect();
    assert_eq!(got, expected);
    assert_eq!(STATUS_OK, 200);
    assert_eq!(STATUS_BAD_REQUEST, 400);
}

#[test]
fn errors_fall_into_their_classes() {
    let got: Vec<ErrorKind> = all_errors().iter().map(|e| e.kind()).collect();
    assert_eq!(
        got,
        vec![
            ErrorKind::FetchFailure,
            ErrorKind::FetchFailure,
            ErrorKind::InvalidInput,
            ErrorKind::InvalidInput,
            ErrorKind::ParseFailure,
            ErrorKind::TimeoutExceeded,
            ErrorKind::Other,
            ErrorKind::ParseFailure,
            ErrorKind::Other,
        ]
    );
}

#[test]
fn budget_is_spent_once_the_limit_is_reached() {
    assert!(budget_spent(0, 0));
    assert!(!budget_spent(0, 1));
    assert!(budget_spent(1, 1));
    assert!(budget_spent(2, 1));
    assert!(!budget_spent(59_999, 60_000));
}

#[test]
fn milliseconds_saturate() {
    assert_eq!(millis_u64(0), 0);
    assert_eq!(millis_u64(u64::MAX as u128), u64::MAX);
    assert_eq!(millis_u64(u64::MAX as u128 + 1), u64::MAX);
    assert_eq!(millis_u64(u128::MAX), u64::MAX);
}

#[test]
fn only_a_served_page_counts_as_fetched() {
    for status in [200u16, 201, 204, 299] {
        assert_eq!(fetch_failure(status, "text".to_string()), None);
    }
    for status in [0u16, 100, 199, 300, 301, 404, 500, 503, u16::MAX] {
        assert_eq!(
            fetch_failure(status, "503 Service Unavailable".to_string()),
            Some(CrawlerError::HttpError("503 Service Unavailable".to_string()))
        );
    }
}
