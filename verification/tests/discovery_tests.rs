use keyword_crawler::discovery::{
    page_record, plan_crawl, process_page, subdomain_request, CrawlEnd, Discovery, SeedCrawl,
    CHANNEL_CAPACITY,
};
use keyword_crawler::error::CrawlerError;
use keyword_crawler::model::{CrawlRequest, TraversalStrategy};
use keyword_crawler::traversal::domain_failure;

fn request(url: &str) -> CrawlRequest {
    CrawlRequest {
        url: url.to_string(),
        keywords: vec!["foo".to_string()],
        max_pages: None,
        max_depth: None,
        timeout_seconds: None,
        follow_pagination: None,
        include_subdomains: None,
    }
}

#[test]
fn plan_takes_the_defaults() {
    let plan = plan_crawl(&request("https://example.com")).unwrap();
    assert_eq!(plan.start_url, "https://example.com");
    assert_eq!(plan.base_url, "https://example.com/");
    assert_eq!(plan.keywords, vec!["foo".to_string()]);
    assert!(!plan.include_subdomains);
    assert_eq!(plan.max_depth, 3);
    assert_eq!(plan.max_pages, 100);
    assert_eq!(plan.crawl_timeout_seconds, 60);
    assert_eq!(plan.overall_timeout_seconds, 90);
    assert_eq!(plan.delay_ms, 1000);
    assert_eq!(plan.request_timeout_seconds, 30);
    assert!(plan.respect_robots_txt);
    assert_eq!(plan.channel_capacity, 16);
    assert_eq!(CHANNEL_CAPACITY, 16);
}

#[test]
fn plan_takes_what_the_request_names() {
    let mut r = request("http://example.com/a?b=1");
    r.max_pages = Some(5);
    r.max_depth = Some(7);
    r.timeout_seconds = Some(u64::MAX - 3);
    r.include_subdomains = Some(true);
    let plan = plan_crawl(&r).unwrap();
    assert_eq!(plan.base_url, "http://example.com/a?b=1");
    assert_eq!(plan.max_pages, 5);
    assert_eq!(plan.max_depth, 7);
    assert!(plan.include_subdomains);
    assert_eq!(plan.crawl_timeout_seconds, u64::MAX - 3);
    assert_eq!(plan.overall_timeout_seconds, u64::MAX);
}

#[test]
fn plan_refuses_what_is_no_url() {
    match plan_crawl(&request("example.com")) {
        Err(CrawlerError::UrlParseError(why)) => assert!(!why.is_empty()),
        other => panic!("unexpected: {:?}", other),
    }
}

#[test]
fn subdomain_request_is_two_levels_deep() {
    let r = subdomain_request("example.com", Some(7), None);
    assert_eq!(r.url, "https://example.com");
    assert_eq!(r.max_pages, Some(7));
    assert_eq!(r.max_depth, Some(2));
    assert_eq!(r.timeout_seconds, None);
    assert_eq!(r.include_subdomains, Some(true));
    assert_eq!(r.follow_pagination, None);
    assert!(r.keywords.is_empty());
    assert_eq!(r.strategy(), TraversalStrategy::LinkDiscovery);
}

#[test]
fn page_record_reads_title_text_and_links() {
    let html = "<html><head><title> T </title></head><body><p>Some text</p><a href=\"/b\">b</a><a href=\"/a\">a</a></body></html>";
    let r = page_record("https://example.com/x", html, "when".to_string()).unwrap();
    assert_eq!(r.url, "https://example.com/x");
    assert_eq!(r.title, Some("T".to_string()));
    assert_eq!(r.content, "T Some text b a");
    assert_eq!(r.links, vec!["https://example.com/a".to_string(), "https://example.com/b".to_string()]);
    assert_eq!(r.status_code, None);
    assert_eq!(r.crawl_time, Some("when".to_string()));
}

#[test]
fn process_page_stamps_the_record() {
    let r = process_page("https://example.com/", "<p>x</p>").unwrap();
    assert_eq!(r.content, "x");
    let stamp = r.crawl_time.unwrap();
    assert!(stamp.len() >= 20);
    assert!(stamp.contains('T'));
}

#[test]
fn consumer_stops_at_the_page_budget() {
    let mut d = Discovery::new("https://example.com/".to_string(), vec!["foo".to_string()], 2);
    assert!(!d.is_full());
    assert!(d.on_page("https://example.com/", "<title>One</title> foo"));
    assert!(d.on_page("https://example.com/2", "<title>Two</title> foo foo"));
    assert!(d.is_full());
    assert!(!d.on_page("https://example.com/3", "<title>Three</title> foo"));
    assert_eq!(d.pages_crawled(), 2);
    let crawl = d.conclude(CrawlEnd::EngineCompleted, "when".to_string(), 40).unwrap();
    assert_eq!(crawl.pages.len(), 2);
    assert_eq!(crawl.pages[1].url, "https://example.com/2");
    assert!(crawl.errors.is_empty());
    assert_eq!(crawl.domain.url, "https://example.com/");
    assert_eq!(crawl.domain.title, Some("One".to_string()));
    assert_eq!(crawl.domain.pages_crawled, 2);
    assert!(crawl.domain.has_more_pages);
    assert_eq!(crawl.domain.error, None);
    let counts: Vec<usize> = crawl.domain.matches.iter().map(|m| m.occurrences).collect();
    assert_eq!(counts, vec![1, 2]);
    let metadata = crawl.domain.metadata.unwrap();
    assert_eq!(metadata.crawl_time, "when");
    assert_eq!(metadata.processing_time_ms, 40);
    assert_eq!(metadata.content_summary, Some("One".to_string()));
}

#[test]
fn consumer_with_no_budget_drops_the_first_page() {
    let mut d = Discovery::new("https://example.com/".to_string(), vec![], 0);
    assert!(d.is_full());
    assert!(!d.on_page("https://example.com/", "x"));
    let crawl = d.conclude(CrawlEnd::EngineCompleted, "when".to_string(), 1).unwrap();
    assert!(crawl.pages.is_empty());
    assert!(crawl.domain.has_more_pages);
    assert_eq!(crawl.domain.pages_crawled, 0);
    assert_eq!(crawl.domain.title, None);
}

#[test]
fn consumer_below_the_budget_owes_nothing() {
    let mut d = Discovery::new("https://example.com/".to_string(), vec![], 5);
    assert!(d.on_page("https://example.com/", "x"));
    let crawl = d.conclude(CrawlEnd::EngineCompleted, "when".to_string(), 1).unwrap();
    assert!(!crawl.domain.has_more_pages);
    assert_eq!(crawl.domain.pages_crawled, 1);
}

#[test]
fn engine_trouble_is_noted_and_ends_nothing() {
    let mut d = Discovery::new("https://example.com/".to_string(), vec![], 5);
    d.on_page("https://example.com/", "x");
    let failed = d.clone().conclude(CrawlEnd::EngineFailed("task panicked".to_string()), "t".to_string(), 1).unwrap();
    assert_eq!(failed.errors, vec!["Crawl error: task panicked".to_string()]);
    assert_eq!(failed.pages.len(), 1);
    let slow = d.conclude(CrawlEnd::EngineTimedOut, "t".to_string(), 1).unwrap();
    assert_eq!(slow.errors, vec!["Crawl handle timed out".to_string()]);
    assert_eq!(slow.domain.error, None);
}

#[test]
fn elapsed_deadline_fails_the_whole_crawl() {
    let mut d = Discovery::new("https://example.com/".to_string(), vec![], 5);
    d.on_page("https://example.com/", "x");
    assert_eq!(d.conclude(CrawlEnd::DeadlineElapsed, "t".to_string(), 1), Err(CrawlerError::TimeoutError));
}

#[test]
fn take_page_notes_failures() {
    let mut d = Discovery::new("https://example.com/".to_string(), vec![], 5);
    assert!(d.take_page(Err(CrawlerError::SelectorError("bad".to_string())), Ok(vec![])));
    assert!(d.take_page(
        Err(CrawlerError::Other("x".to_string())),
        Err(CrawlerError::SelectorError("worse".to_string()))
    ));
    assert_eq!(d.pages_crawled(), 0);
    let crawl = d.conclude(CrawlEnd::EngineCompleted, "t".to_string(), 1).unwrap();
    assert_eq!(
        crawl.errors,
        vec![
            "Selector error: bad".to_string(),
            "Other error: x".to_string(),
            "Selector error: worse".to_string()
        ]
    );
}

#[test]
fn seed_crawl_of_a_domain_keeps_no_pages() {
    let domain = domain_failure("u".to_string(), "why".to_string());
    let crawl = SeedCrawl::of_domain(domain.clone());
    assert_eq!(crawl.domain, domain);
    assert!(crawl.pages.is_empty());
    assert!(crawl.errors.is_empty());
}

#[test]
fn links_are_resolved_against_the_page_itself() {
    let r = process_page("https://example.com/dir/p.html", "<a href='q.html'>q</a>").unwrap();
    assert_eq!(r.links, vec!["https://example.com/dir/q.html".to_string()]);
}

#[test]
fn consumer_resolves_links_against_each_page() {
    let mut d = Discovery::new("https://example.com/".to_string(), vec![], 5);
    assert!(d.on_page("https://example.com/dir/p.html", "<a href='q.html'>q</a>"));
    assert!(d.on_page("https://example.com/other/deep/r.html", "<a href=\"../s.html\">s</a>"));
    let crawl = d.conclude(CrawlEnd::EngineCompleted, "when".to_string(), 1).unwrap();
    assert_eq!(crawl.pages[0].links, vec!["https://example.com/dir/q.html".to_string()]);
    assert_eq!(crawl.pages[1].links, vec!["https://example.com/other/s.html".to_string()]);
    assert_eq!(crawl.domain.url, "https://example.com/");
}
