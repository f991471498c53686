use keyword_crawler::clock::Deadline;
use keyword_crawler::discovery::{CrawlEnd, Discovery, SeedCrawl};
use keyword_crawler::error::CrawlerError;
use keyword_crawler::model::{CrawlRequest, CrawlResponse, DomainResult, TraversalStrategy};
use keyword_crawler::orchestrator::{count_pages, CrawlRun};
use keyword_crawler::traversal::{domain_failure, Action, CrawlBudget, Traversal};

fn request(url: &str, follow: Option<bool>) -> CrawlRequest {
    CrawlRequest {
        url: url.to_string(),
        keywords: vec!["foo".to_string()],
        max_pages: None,
        max_depth: None,
        timeout_seconds: None,
        follow_pagination: follow,
        include_subdomains: None,
    }
}

fn fake_fetch(url: &str) -> Result<String, String> {
    if url.contains("example.org") {
        Err("connection refused".to_string())
    } else {
        Ok(format!(
            "<title>Page of {}</title><p>foo here, foo there</p><a rel=\"next\" href=\"/next\">Next</a>",
            url
        ))
    }
}

fn crawl(request: &CrawlRequest) -> Result<CrawlResponse, CrawlerError> {
    let mut run = CrawlRun::start(request)?;
    let budget = CrawlBudget::from_request(request);
    while let Some(seed) = run.next_seed() {
        let deadline = Deadline::starting_now(budget.max_millis);
        let mut traversal = Traversal::new(seed, request.keywords.clone(), budget);
        while let Action::Fetch(url) = traversal.poll(deadline.expired()) {
            match fake_fetch(&url) {
                Ok(body) => {
                    let _ = traversal.on_page(&body, &deadline);
                }
                Err(why) => traversal.fail(CrawlerError::HttpError(why).message()),
            }
        }
        let result = traversal.finish("2024-01-01T00:00:00+00:00".to_string(), deadline.elapsed_ms());
        run.record(Ok(SeedCrawl::of_domain(result)));
    }
    Ok(run.finish("2024-01-01T00:00:01+00:00".to_string(), 1000))
}

#[test]
fn malformed_seed_is_dropped_silently() {
    let response = crawl(&request("example.com, not a url, example.net", Some(false))).unwrap();
    assert_eq!(response.domains.len(), 2);
    assert_eq!(response.domains[0].url, "https://example.com/");
    assert_eq!(response.domains[1].url, "https://example.net/");
    for domain in &response.domains {
        assert_eq!(domain.pages_crawled, 1);
        assert!(!domain.has_more_pages);
        assert_eq!(domain.error, None);
        assert_eq!(domain.matches.len(), 1);
        assert_eq!(domain.matches[0].occurrences, 2);
    }
    assert_eq!(response.total_pages_crawled, 2);
    assert_eq!(response.crawl_duration_ms, 1000);
    assert_eq!(response.crawl_time, "2024-01-01T00:00:01+00:00");
    assert!(response.pages.is_empty());
    assert!(response.errors.is_empty());
}

#[test]
fn end_to_end_with_a_seed_that_fails() {
    let response = crawl(&request("example.com, not a url, example.org", Some(false))).unwrap();
    assert_eq!(response.domains.len(), 2);
    assert_eq!(response.domains[0].url, "https://example.com/");
    assert_eq!(response.domains[0].pages_crawled, 1);
    assert_eq!(response.domains[0].error, None);
    assert_eq!(response.domains[1].url, "https://example.org/");
    assert_eq!(
        response.domains[1].error,
        Some("HTTP request failed: connection refused".to_string())
    );
    assert_eq!(response.domains[1].pages_crawled, 0);
    assert!(response.domains[1].matches.is_empty());
    assert_eq!(response.total_pages_crawled, 1);
}

#[test]
fn pages_stay_within_the_budget_for_every_seed() {
    for max_pages in 0u32..5 {
        let mut r = request("a.example.com,b.example.com", Some(true));
        r.max_pages = Some(max_pages);
        let response = crawl(&r).unwrap();
        assert_eq!(response.domains.len(), 2);
        for domain in &response.domains {
            assert!(domain.pages_crawled <= max_pages as usize);
        }
    }
}

#[test]
fn followed_pagination_stops_at_a_cycle() {
    // Every fake page names "/next" as the next page, so the second page
    // names itself.
    let response = crawl(&request("example.com", Some(true))).unwrap();
    assert_eq!(response.domains.len(), 1);
    assert_eq!(response.domains[0].pages_crawled, 2);
    assert!(!response.domains[0].has_more_pages);
    assert_eq!(response.domains[0].error, None);
}

#[test]
fn request_without_a_seed_is_refused() {
    assert!(matches!(crawl(&request(" , ", Some(false))), Err(CrawlerError::UrlError(_))));
    assert!(matches!(CrawlRun::start(&request("not a url", None)), Err(CrawlerError::UrlError(_))));
}

#[test]
fn failure_of_one_seed_does_not_end_the_run() {
    let mut run = CrawlRun::start(&request("a.example.com, b.example.com, c.example.com", None)).unwrap();
    assert_eq!(run.seed_count(), 3);
    assert!(!run.is_complete());
    assert_eq!(run.next_seed(), Some("https://a.example.com/".to_string()));
    run.record(Err(CrawlerError::TimeoutError));
    assert_eq!(run.next_seed(), Some("https://b.example.com/".to_string()));
    let mut d = Discovery::new("https://b.example.com/".to_string(), vec![], 1);
    d.on_page("https://b.example.com/", "<title>B</title>");
    d.on_page("https://b.example.com/2", "dropped");
    run.record(d.conclude(CrawlEnd::EngineTimedOut, "t".to_string(), 3));
    run.record(Err(CrawlerError::CrawlError("engine broke".to_string())));
    assert!(run.is_complete());
    assert_eq!(run.next_seed(), None);
    run.record(Err(CrawlerError::Other("one too many".to_string())));
    let response = run.finish("end".to_string(), 77);
    assert_eq!(response.domains.len(), 3);
    assert_eq!(
        response.domains[0],
        domain_failure("https://a.example.com/".to_string(), "Crawling timeout".to_string())
    );
    assert_eq!(response.domains[1].url, "https://b.example.com/");
    assert_eq!(response.domains[1].pages_crawled, 1);
    assert!(response.domains[1].has_more_pages);
    assert_eq!(response.domains[2].url, "https://c.example.com/");
    assert_eq!(response.domains[2].error, Some("Crawling failed: engine broke".to_string()));
    assert_eq!(response.pages.len(), 1);
    assert_eq!(response.errors, vec!["Crawl handle timed out".to_string()]);
    assert_eq!(response.total_pages_crawled, 1);
    assert_eq!(response.crawl_duration_ms, 77);
}

fn domain_with(pages: usize) -> DomainResult {
    let mut d = domain_failure("u".to_string(), "x".to_string());
    d.pages_crawled = pages;
    d
}

#[test]
fn page_count_is_the_sum_and_saturates() {
    assert_eq!(count_pages(&vec![]), 0);
    assert_eq!(count_pages(&vec![domain_with(2), domain_with(0), domain_with(5)]), 7);
    assert_eq!(count_pages(&vec![domain_with(usize::MAX), domain_with(1)]), usize::MAX);
    assert_eq!(count_pages(&vec![domain_with(usize::MAX - 1), domain_with(1), domain_with(9)]), usize::MAX);
}

#[test]
fn strategy_follows_the_pagination_flag() {
    assert_eq!(request("x", None).strategy(), TraversalStrategy::LinkDiscovery);
    assert_eq!(request("x", Some(false)).strategy(), TraversalStrategy::PaginationFollow);
    assert_eq!(request("x", Some(true)).strategy(), TraversalStrategy::PaginationFollow);
}

#[test]
fn each_result_is_kept_under_its_seed() {
    let mut run = CrawlRun::start(&request("a.example.com, nope nope, b.example.com", None)).unwrap();
    let mut stray = domain_failure("https://elsewhere.example/".to_string(), "x".to_string());
    stray.error = None;
    stray.pages_crawled = 4;
    run.record(Ok(SeedCrawl::of_domain(stray.clone())));
    run.record(Ok(SeedCrawl::of_domain(stray)));
    let response = run.finish("end".to_string(), 1);
    let urls: Vec<&str> = response.domains.iter().map(|d| d.url.as_str()).collect();
    assert_eq!(urls, vec!["https://a.example.com/", "https://b.example.com/"]);
    assert_eq!(response.domains[0].pages_crawled, 4);
    assert_eq!(response.total_pages_crawled, 8);
}
