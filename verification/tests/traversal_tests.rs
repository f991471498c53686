use keyword_crawler::clock::Deadline;
use keyword_crawler::keywords::Extraction;
use keyword_crawler::model::CrawlRequest;
use keyword_crawler::traversal::{domain_failure, Action, CrawlBudget, Phase, Traversal};

fn budget(max_pages: usize, follow_pagination: bool) -> CrawlBudget {
    CrawlBudget { max_pages, max_millis: 60_000, follow_pagination }
}

fn start(max_pages: usize, follow: bool) -> Traversal {
    Traversal::new("https://example.com/".to_string(), vec!["foo".to_string()], budget(max_pages, follow))
}

fn far() -> Deadline {
    Deadline::starting_now(3_600_000)
}

fn page(title: &str, body: &str, next: Option<&str>) -> String {
    let link = match next {
        Some(href) => format!("<a rel=\"next\" href=\"{}\">Next</a>", href),
        None => String::new(),
    };
    format!("<html><head><title>{}</title></head><body>{}{}</body></html>", title, body, link)
}

fn request() -> CrawlRequest {
    CrawlRequest {
        url: "example.com".to_string(),
        keywords: vec![],
        max_pages: None,
        max_depth: None,
        timeout_seconds: None,
        follow_pagination: None,
        include_subdomains: None,
    }
}

#[test]
fn budget_of_a_request() {
    let mut r = request();
    r.follow_pagination = Some(true);
    assert_eq!(
        CrawlBudget::from_request(&r),
        CrawlBudget { max_pages: 10, max_millis: 60_000, follow_pagination: true }
    );
    r.follow_pagination = Some(false);
    r.max_pages = Some(3);
    r.timeout_seconds = Some(2);
    assert_eq!(
        CrawlBudget::from_request(&r),
        CrawlBudget { max_pages: 3, max_millis: 2_000, follow_pagination: false }
    );
    r.timeout_seconds = Some(u64::MAX);
    assert_eq!(CrawlBudget::from_request(&r).max_millis, u64::MAX);
    r.follow_pagination = None;
    r.max_pages = None;
    assert_eq!(CrawlBudget::from_request(&r).max_pages, 100);
    assert!(!CrawlBudget::from_request(&r).follow_pagination);
}

#[test]
fn first_action_is_to_fetch_the_seed() {
    let mut t = start(10, true);
    assert_eq!(t.phase(), Phase::Fetching);
    assert_eq!(t.poll(false), Action::Fetch("https://example.com/".to_string()));
    assert_eq!(t.pages_crawled(), 0);
    assert!(!t.is_finished());
}

#[test]
fn without_pagination_one_page_is_read() {
    let mut t = start(50, false);
    assert_eq!(t.poll(false), Action::Fetch("https://example.com/".to_string()));
    t.on_page(&page("One", "foo and foo", Some("/page2")), &far()).unwrap();
    assert_eq!(t.phase(), Phase::Done);
    assert_eq!(t.pages_crawled(), 1);
    assert!(!t.has_more_pages());
    assert_eq!(t.poll(false), Action::Finish);
    t.on_page(&page("Two", "foo", None), &far()).unwrap();
    assert_eq!(t.pages_crawled(), 1);
    let result = t.finish("2024-01-01T00:00:00+00:00".to_string(), 12);
    assert_eq!(result.url, "https://example.com/");
    assert_eq!(result.title, Some("One".to_string()));
    assert_eq!(result.pages_crawled, 1);
    assert!(!result.has_more_pages);
    assert_eq!(result.error, None);
    assert_eq!(result.matches.len(), 1);
    assert_eq!(result.matches[0].keyword, "foo");
    assert_eq!(result.matches[0].occurrences, 2);
    let metadata = result.metadata.unwrap();
    assert_eq!(metadata.crawl_time, "2024-01-01T00:00:00+00:00");
    assert_eq!(metadata.processing_time_ms, 12);
    assert_eq!(metadata.content_summary, Some("One".to_string()));
}

#[test]
fn pagination_is_followed_to_the_last_page() {
    let mut t = start(10, true);
    assert_eq!(t.poll(false), Action::Fetch("https://example.com/".to_string()));
    t.on_page(&page("One", "foo", Some("/page2")), &far()).unwrap();
    assert_eq!(t.poll(false), Action::Fetch("https://example.com/page2".to_string()));
    t.on_page(&page("Two", "no match", Some("page3")), &far()).unwrap();
    assert_eq!(t.poll(false), Action::Fetch("https://example.com/page3".to_string()));
    t.on_page(&page("Three", "FOO foo", None), &far()).unwrap();
    assert_eq!(t.poll(false), Action::Finish);
    assert_eq!(t.phase(), Phase::Done);
    let result = t.finish("now".to_string(), 1);
    assert_eq!(result.pages_crawled, 3);
    assert!(!result.has_more_pages);
    assert_eq!(result.title, Some("One".to_string()));
    let counts: Vec<usize> = result.matches.iter().map(|m| m.occurrences).collect();
    assert_eq!(counts, vec![1, 2]);
}

#[test]
fn page_budget_stops_the_traversal_and_owes_more() {
    let mut t = start(2, true);
    assert_eq!(t.poll(false), Action::Fetch("https://example.com/".to_string()));
    t.on_page(&page("One", "foo", Some("/page2")), &far()).unwrap();
    assert_eq!(t.poll(false), Action::Fetch("https://example.com/page2".to_string()));
    t.on_page(&page("Two", "foo", Some("/page3")), &far()).unwrap();
    assert_eq!(t.phase(), Phase::Fetching);
    assert_eq!(t.poll(false), Action::Finish);
    assert_eq!(t.phase(), Phase::Done);
    assert!(t.has_more_pages());
    assert_eq!(t.pages_crawled(), 2);
}

#[test]
fn page_budget_of_nothing_reads_nothing() {
    let mut t = start(0, false);
    assert_eq!(t.poll(false), Action::Finish);
    assert!(t.has_more_pages());
    assert_eq!(t.pages_crawled(), 0);
    let result = t.finish("now".to_string(), 0);
    assert_eq!(result.pages_crawled, 0);
    assert!(result.has_more_pages);
}

#[test]
fn revisit_ends_the_traversal_without_error() {
    let mut t = start(10, true);
    t.poll(false);
    t.on_page(&page("One", "foo", Some("/page2")), &far()).unwrap();
    t.poll(false);
    t.on_page(&page("Two", "foo", Some("/")), &far()).unwrap();
    assert_eq!(t.phase(), Phase::Done);
    assert!(!t.has_more_pages());
    assert_eq!(t.poll(false), Action::Finish);
    let result = t.finish("now".to_string(), 1);
    assert_eq!(result.pages_crawled, 2);
    assert_eq!(result.error, None);
    assert!(!result.has_more_pages);
}

#[test]
fn page_that_names_itself_ends_the_traversal() {
    let mut t = start(10, true);
    t.poll(false);
    t.on_page(&page("One", "foo", Some("https://example.com/")), &far()).unwrap();
    assert_eq!(t.phase(), Phase::Done);
    assert!(!t.has_more_pages());
    assert_eq!(t.pages_crawled(), 1);
}

#[test]
fn spent_time_before_the_first_fetch_reads_nothing() {
    let mut t = start(10, true);
    let deadline = Deadline::starting_now(0);
    assert_eq!(t.poll(deadline.expired()), Action::Finish);
    assert_eq!(t.phase(), Phase::TimedOut);
    let result = t.finish("now".to_string(), 0);
    assert!(result.has_more_pages);
    assert_eq!(result.pages_crawled, 0);
    assert_eq!(result.error, None);
}

#[test]
fn time_that_runs_out_during_the_fetch_reads_one_page() {
    let mut t = start(10, true);
    assert_eq!(t.poll(false), Action::Fetch("https://example.com/".to_string()));
    t.on_page(&page("One", "foo", Some("/page2")), &Deadline::starting_now(0)).unwrap();
    assert_eq!(t.phase(), Phase::TimedOut);
    assert_eq!(t.poll(true), Action::Finish);
    let result = t.finish("now".to_string(), 5);
    assert!(result.has_more_pages);
    assert_eq!(result.pages_crawled, 1);
    assert_eq!(result.error, None);
    assert_eq!(result.title, Some("One".to_string()));
    assert_eq!(result.matches.len(), 1);
    assert_eq!(result.matches[0].occurrences, 0);
}

#[test]
fn time_spent_at_the_second_check_keeps_the_first_page() {
    let mut t = start(10, true);
    t.poll(false);
    t.on_page(&page("One", "foo", Some("/page2")), &far()).unwrap();
    assert_eq!(t.poll(true), Action::Finish);
    assert_eq!(t.phase(), Phase::TimedOut);
    assert!(t.has_more_pages());
    assert_eq!(t.pages_crawled(), 1);
}

#[test]
fn failed_fetch_gives_a_result_with_the_reason_only() {
    let mut t = start(10, true);
    t.poll(false);
    t.on_page(&page("One", "foo", Some("/page2")), &far()).unwrap();
    t.poll(false);
    t.fail("HTTP request failed: 503".to_string());
    assert_eq!(t.phase(), Phase::Failed);
    assert_eq!(t.poll(false), Action::Finish);
    let result = t.finish("now".to_string(), 9);
    assert_eq!(result, domain_failure("https://example.com/".to_string(), "HTTP request failed: 503".to_string()));
    assert_eq!(result.error, Some("HTTP request failed: 503".to_string()));
    assert_eq!(result.pages_crawled, 0);
    assert!(result.matches.is_empty());
    assert_eq!(result.title, None);
    assert_eq!(result.metadata, None);
    assert!(!result.has_more_pages);
}

#[test]
fn failure_after_the_end_changes_nothing() {
    let mut t = start(10, false);
    t.poll(false);
    t.on_page(&page("One", "foo", None), &far()).unwrap();
    t.fail("late".to_string());
    assert_eq!(t.phase(), Phase::Done);
    assert_eq!(t.finish("now".to_string(), 1).error, None);
}

#[test]
fn apply_page_takes_the_title_of_the_first_page_only() {
    let mut t = start(10, true);
    t.poll(false);
    t.apply_page(
        Some("First".to_string()),
        Extraction { matches: vec![], timed_out: false },
        Some("https://example.com/2".to_string()),
    );
    t.poll(false);
    t.apply_page(Some("Second".to_string()), Extraction { matches: vec![], timed_out: false }, None);
    let result = t.finish("now".to_string(), 1);
    assert_eq!(result.title, Some("First".to_string()));
    assert_eq!(result.pages_crawled, 2);
}
