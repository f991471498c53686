//! The traversal of one seed by link discovery: an outside crawling engine
//! finds and fetches the pages, and the consumer in this file reads each
//! page as it comes, within the page budget.

use vstd::prelude::*;
use vstd::string::StringExecFns;
use crate::bindings::{
    parse_url, regex_captures, regex_captures_iter, regex_compiles, timestamp_now,
    url_error_text, url_parse,
};
use crate::error::CrawlerError;
use crate::extract::{
    cleaning_patterns_compile, content_of, content_patterns_compile, extract_content,
    extract_title, title_of, TITLE_PATTERN,
};
use crate::keywords::{any_hit, find_matches, matches_of};
use crate::links::{extract_links, links_of, LINK_PATTERN};
use crate::model::{
    match_views, page_views, CrawlMetadata, CrawlMetadataView, CrawlRequest, CrawlResult,
    CrawlResultView, DomainResult, DomainResultView, KeywordMatch, KeywordMatchView,
    DEFAULT_MAX_PAGES_DISCOVERY, SUBDOMAIN_MAX_DEPTH,
};
use crate::text::{strictly_sorted, texts};
use crate::traversal::copy_text;

verus! {

/// How the crawling engine introduces itself to the servers.
pub const USER_AGENT: &'static str =
    "Mozilla/5.0 (Macintosh; Intel Mac OS X 10_15_7) AppleWebKit/537.36 (KHTML, like Gecko) Chrome/120.0.0.0 Safari/537.36";

/// The pause between two requests of the crawling engine, in milliseconds.
pub const REQUEST_DELAY_MS: u64 = 1000;

/// The time that one request of the crawling engine may take, in seconds.
pub const REQUEST_TIMEOUT_SECONDS: u64 = 30;

/// How many fetched pages may wait to be read.
pub const CHANNEL_CAPACITY: usize = 16;

/// The seconds that the whole crawl of a seed may take beyond its time
/// budget.
pub const DEADLINE_GRACE_SECONDS: u64 = 30;

/// How the crawling engine is set up for one seed.
#[derive(Debug, Clone, PartialEq, Eq)]
pub struct CrawlPlan {
    /// Where the engine starts, as the request has it.
    pub start_url: String,
    /// The address of the seed, as the URL parser writes it.
    pub base_url: String,
    /// The keywords to look for.
    pub keywords: Vec<String>,
    /// Whether the engine follows links into subdomains.
    pub include_subdomains: bool,
    /// How far from the seed the engine may go.
    pub max_depth: usize,
    /// The most pages to read.
    pub max_pages: usize,
    /// The time budget of the engine, in seconds; the engine is given as
    /// long again to wind down once reading has ended.
    pub crawl_timeout_seconds: u64,
    /// The time after which the crawl of the seed fails as a whole, in
    /// seconds.
    pub overall_timeout_seconds: u64,
    /// The pause between two requests, in milliseconds.
    pub delay_ms: u64,
    /// The time that one request may take, in seconds.
    pub request_timeout_seconds: u64,
    /// Whether the engine keeps to the robots directives of a site.
    pub respect_robots_txt: bool,
    /// How many fetched pages may wait to be read.
    pub channel_capacity: usize,
}

/// The time after which the crawl of a seed fails as a whole: its time
/// budget and the grace, as far as the numbers go.
pub open spec fn overall_timeout_of(timeout_seconds: u64) -> u64 {
    if timeout_seconds + DEADLINE_GRACE_SECONDS > u64::MAX {
        u64::MAX
    } else {
        (timeout_seconds + DEADLINE_GRACE_SECONDS) as u64
    }
}

impl CrawlPlan {
    /// Whether this is the plan that `request` asks for, `base` being
    /// the address of the seed as the URL parser writes it.
    pub open spec fn is_plan_of(self, request: CrawlRequest, base: Seq<char>) -> bool {
        &&& self.start_url@ == request.url@
        &&& self.base_url@ == base
        &&& texts(self.keywords@) == texts(request.keywords@)
        &&& self.include_subdomains == (request.include_subdomains == Some(true))
        &&& self.max_depth == request.max_depth_of()
        &&& self.max_pages == match request.max_pages {
            Some(n) => n as usize,
            None => DEFAULT_MAX_PAGES_DISCOVERY as usize,
        }
        &&& self.crawl_timeout_seconds == request.timeout_seconds_of()
        &&& self.overall_timeout_seconds == overall_timeout_of(self.crawl_timeout_seconds)
        &&& self.delay_ms == REQUEST_DELAY_MS
        &&& self.request_timeout_seconds == REQUEST_TIMEOUT_SECONDS
        &&& self.respect_robots_txt
        &&& self.channel_capacity == CHANNEL_CAPACITY
    }
}

/// A copy of a list of texts.
pub fn copy_texts(list: &Vec<String>) -> (copy: Vec<String>)
    ensures
        texts(copy@) == texts(list@),
{
    let mut copy: Vec<String> = Vec::new();
    let mut i: usize = 0;
    while i < list.len()
        invariant
            i <= list.len(),
            texts(copy@) == texts(list@).take(i as int),
        decreases list.len() - i,
    {
        let ghost had = copy@;
        let item = list[i].clone();
        copy.push(item);
        assert(texts(copy@) =~= texts(had).push(item@));
        assert(texts(list@)[i as int] == list@[i as int]@);
        i += 1;
        assert(texts(copy@) =~= texts(list@).take(i as int));
    }
    assert(texts(list@).take(list.len() as int) == texts(list@));
    copy
}

/// The plan that a parsed request gives, `base_url` being the address of
/// the seed as the URL parser writes it.
pub fn plan_for(request: &CrawlRequest, base_url: String) -> (plan: CrawlPlan)
    ensures
        plan.is_plan_of(*request, base_url@),
{
    let crawl_timeout_seconds = request.effective_timeout_seconds();
    let overall_timeout_seconds = match crawl_timeout_seconds.checked_add(DEADLINE_GRACE_SECONDS) {
        Some(s) => s,
        None => u64::MAX,
    };
    CrawlPlan {
        start_url: request.url.clone(),
        base_url,
        keywords: copy_texts(&request.keywords),
        include_subdomains: request.includes_subdomains(),
        max_depth: request.effective_max_depth() as usize,
        max_pages: match request.max_pages {
            Some(n) => n as usize,
            None => DEFAULT_MAX_PAGES_DISCOVERY as usize,
        },
        crawl_timeout_seconds,
        overall_timeout_seconds,
        delay_ms: REQUEST_DELAY_MS,
        request_timeout_seconds: REQUEST_TIMEOUT_SECONDS,
        respect_robots_txt: true,
        channel_capacity: CHANNEL_CAPACITY,
    }
}

/// Plans the crawl that a request asks for. The URL of the request is
/// parsed first; the request is refused exactly where it is no absolute
/// URL.
pub fn plan_crawl(request: &CrawlRequest) -> (res: Result<CrawlPlan, CrawlerError>)
    ensures
        match res {
            Ok(plan) => url_parse(request.url@) is Some && plan.is_plan_of(
                *request,
                url_parse(request.url@)->0,
            ),
            Err(e) => url_parse(request.url@) is None && e is UrlParseError,
        },
{
    match parse_url(request.url.as_str()) {
        Ok(base_url) => Ok(plan_for(request, base_url)),
        Err(e) => Err(CrawlerError::UrlParseError(url_error_text(&e))),
    }
}

/// The request that crawls a domain with its subdomains: over HTTPS, two
/// levels deep, by link discovery.
pub fn subdomain_request(domain: &str, max_pages: Option<u32>, timeout_seconds: Option<u64>) -> (request:
    CrawlRequest)
    ensures
        request.url@ == "https://"@ + domain@,
        request.keywords@.len() == 0,
        request.max_pages == max_pages,
        request.max_depth == Some(SUBDOMAIN_MAX_DEPTH),
        request.timeout_seconds == timeout_seconds,
        request.follow_pagination is None,
        request.include_subdomains == Some(true),
{
    CrawlRequest {
        url: String::from_str("https://").concat(domain),
        keywords: Vec::new(),
        max_pages,
        max_depth: Some(SUBDOMAIN_MAX_DEPTH),
        timeout_seconds,
        follow_pagination: None,
        include_subdomains: Some(true),
    }
}

/// Whether the patterns that read a page are well formed.
pub open spec fn page_patterns_compile() -> bool {
    &&& regex_compiles(TITLE_PATTERN@)
    &&& content_patterns_compile()
    &&& regex_compiles(LINK_PATTERN@)
}

/// Whether `record` is what is read from the page `html` at `url`: its
/// title, its visible text, and the links that leave it, each resolved
/// against the address of the page itself, sorted, each once. The status is
/// not known.
pub open spec fn is_record_of(record: CrawlResultView, url: Seq<char>, html: Seq<char>) -> bool {
    &&& record.url == url
    &&& record.title == title_of(regex_captures(TITLE_PATTERN@, html))
    &&& record.content == content_of(html)
    &&& strictly_sorted(record.links)
    &&& forall|u: Seq<char>|
        record.links.contains(u) <==> links_of(
            url,
            regex_captures_iter(LINK_PATTERN@, html),
        ).contains(u)
    &&& record.status_code is None
}

/// Reads the page `html` at `url`, stamped with `crawl_time`. Fails exactly
/// where one of the patterns that read a page is malformed.
pub fn page_record(url: &str, html: &str, crawl_time: String) -> (res: Result<
    CrawlResult,
    CrawlerError,
>)
    ensures
        res is Ok <==> page_patterns_compile(),
        res matches Ok(record) ==> is_record_of(record@, url@, html@) && record@.crawl_time
            == Some(crawl_time@),
        res matches Err(e) ==> e is SelectorError,
{
    let title = extract_title(html)?;
    let content = extract_content(html)?;
    let links = extract_links(html, url)?;
    Ok(
        CrawlResult {
            url: String::from_str(url),
            title,
            content,
            links,
            status_code: None,
            crawl_time: Some(crawl_time),
        },
    )
}

/// Reads the page `html` at `url` and stamps it with the present moment.
/// Fails exactly where one of the patterns that read a page is malformed.
pub fn process_page(url: &str, html: &str) -> (res: Result<CrawlResult, CrawlerError>)
    ensures
        res is Ok <==> page_patterns_compile(),
        res matches Ok(record) ==> is_record_of(record@, url@, html@) && record@.crawl_time
            is Some,
        res matches Err(e) ==> e is SelectorError,
{
    page_record(url, html, timestamp_now())
}

/// How the crawl of a seed by link discovery came to its end.
#[derive(Debug, Clone, PartialEq, Eq)]
pub enum CrawlEnd {
    /// The time for the whole crawl ran out while pages were still read.
    DeadlineElapsed,
    /// Reading ended and the engine wound down.
    EngineCompleted,
    /// Reading ended and the engine broke down, for this reason.
    EngineFailed(String),
    /// Reading ended and the engine did not wind down in time.
    EngineTimedOut,
}

/// What is said of an engine that did not wind down in time.
pub const ENGINE_TIMEOUT_NOTE: &'static str = "Crawl handle timed out";

/// What stands before the reason of an engine that broke down.
pub const ENGINE_FAILURE_LABEL: &'static str = "Crawl error: ";

/// What the crawl of one seed gave: its result, the pages read by link
/// discovery, and what went wrong without ending the crawl.
#[derive(Debug, Clone, PartialEq, Eq)]
pub struct SeedCrawl {
    /// The result of the seed.
    pub domain: DomainResult,
    /// The pages read, in the order in which they came.
    pub pages: Vec<CrawlResult>,
    /// What went wrong without ending the crawl.
    pub errors: Vec<String>,
}

impl SeedCrawl {
    /// What a crawl gave that kept no pages and had nothing to note: the
    /// result of the seed alone.
    pub fn of_domain(domain: DomainResult) -> (crawl: SeedCrawl)
        ensures
            crawl.domain == domain,
            crawl.pages@.len() == 0,
            crawl.errors@.len() == 0,
    {
        SeedCrawl { domain, pages: Vec::new(), errors: Vec::new() }
    }
}

/// The state of a consumer as a mathematical value.
pub ghost struct DiscoveryView {
    pub base_url: Seq<char>,
    pub keywords: Seq<Seq<char>>,
    pub max_pages: nat,
    pub pages: Seq<CrawlResultView>,
    pub matches: Seq<KeywordMatchView>,
    pub errors: Seq<Seq<char>>,
    pub stopped_early: bool,
}

impl DiscoveryView {
    /// What holds of every state that a consumer can reach.
    pub open spec fn wf(self) -> bool {
        &&& self.pages.len() <= self.max_pages
        &&& self.stopped_early ==> self.pages.len() >= self.max_pages
    }

    /// The state in which a consumer begins.
    pub open spec fn start(
        base_url: Seq<char>,
        keywords: Seq<Seq<char>>,
        max_pages: nat,
    ) -> DiscoveryView {
        DiscoveryView {
            base_url,
            keywords,
            max_pages,
            pages: Seq::empty(),
            matches: Seq::empty(),
            errors: Seq::empty(),
            stopped_early: false,
        }
    }

    /// Whether the page budget is spent.
    pub open spec fn full(self) -> bool {
        self.pages.len() >= self.max_pages
    }

    /// The state after a page came, given what reading it gave: with the
    /// budget spent the page is dropped and reading stops early; else the
    /// record and the matches are kept, and each failure is noted.
    pub open spec fn with_page(
        self,
        record: Result<CrawlResultView, Seq<char>>,
        found: Result<Seq<KeywordMatchView>, Seq<char>>,
    ) -> DiscoveryView {
        if self.full() {
            DiscoveryView { stopped_early: true, ..self }
        } else {
            let noted = match record {
                Ok(_) => self.errors,
                Err(why) => self.errors.push(why),
            };
            DiscoveryView {
                pages: match record {
                    Ok(r) => self.pages.push(r),
                    Err(_) => self.pages,
                },
                matches: match found {
                    Ok(m) => self.matches + m,
                    Err(_) => self.matches,
                },
                errors: match found {
                    Ok(_) => noted,
                    Err(why) => noted.push(why),
                },
                ..self
            }
        }
    }

    /// The title of the first page read.
    pub open spec fn title(self) -> Option<Seq<char>> {
        if self.pages.len() > 0 {
            self.pages[0].title
        } else {
            None
        }
    }

    /// What is noted of the way the engine ended.
    pub open spec fn end_notes(end: CrawlEnd) -> Seq<Seq<char>> {
        match end {
            CrawlEnd::EngineFailed(why) => seq![ENGINE_FAILURE_LABEL@ + why@],
            CrawlEnd::EngineTimedOut => seq![ENGINE_TIMEOUT_NOTE@],
            _ => Seq::empty(),
        }
    }

    /// The result of the seed: what was read, more pages being owed
    /// exactly where reading stopped at the page budget.
    pub open spec fn outcome(self, crawl_time: Seq<char>, elapsed_ms: u64) -> DomainResultView {
        DomainResultView {
            url: self.base_url,
            title: self.title(),
            matches: self.matches,
            pages_crawled: self.pages.len(),
            has_more_pages: self.stopped_early,
            metadata: Some(
                CrawlMetadataView {
                    crawl_time,
                    processing_time_ms: elapsed_ms as nat,
                    content_summary: self.title(),
                },
            ),
            error: None,
        }
    }
}

/// What reading a page gave, as a mathematical value.
pub open spec fn record_view(record: Result<CrawlResult, CrawlerError>) -> Result<
    CrawlResultView,
    Seq<char>,
> {
    match record {
        Ok(r) => Ok(r@),
        Err(e) => Err(e.description()),
    }
}

/// What scanning a page gave, as a mathematical value.
pub open spec fn found_view(found: Result<Vec<KeywordMatch>, CrawlerError>) -> Result<
    Seq<KeywordMatchView>,
    Seq<char>,
> {
    match found {
        Ok(m) => Ok(match_views(m@)),
        Err(e) => Err(e.description()),
    }
}

/// The consumer of the pages that the crawling engine fetches for one seed.
#[derive(Debug, Clone)]
pub struct Discovery {
    base_url: String,
    keywords: Vec<String>,
    max_pages: usize,
    pages: Vec<CrawlResult>,
    matches: Vec<KeywordMatch>,
    errors: Vec<String>,
    stopped_early: bool,
}

impl View for Discovery {
    type V = DiscoveryView;

    closed spec fn view(&self) -> DiscoveryView {
        DiscoveryView {
            base_url: self.base_url@,
            keywords: texts(self.keywords@),
            max_pages: self.max_pages as nat,
            pages: page_views(self.pages@),
            matches: match_views(self.matches@),
            errors: texts(self.errors@),
            stopped_early: self.stopped_early,
        }
    }
}

impl Discovery {
    /// Begins to consume the pages of the seed at `base_url`: at most
    /// `max_pages` pages are kept.
    pub fn new(base_url: String, keywords: Vec<String>, max_pages: usize) -> (d: Discovery)
        ensures
            d@ == DiscoveryView::start(base_url@, texts(keywords@), max_pages as nat),
            d@.wf(),
    {
        let d = Discovery {
            base_url,
            keywords,
            max_pages,
            pages: Vec::new(),
            matches: Vec::new(),
            errors: Vec::new(),
            stopped_early: false,
        };
        assert(page_views(d.pages@) =~= Seq::<CrawlResultView>::empty());
        assert(match_views(d.matches@) =~= Seq::<KeywordMatchView>::empty());
        assert(texts(d.errors@) =~= Seq::<Seq<char>>::empty());
        d
    }

    /// How many pages were kept.
    pub fn pages_crawled(&self) -> (n: usize)
        ensures
            n == self@.pages.len(),
    {
        proof {
            assert(page_views(self.pages@).len() == self.pages@.len());
        }
        self.pages.len()
    }

    /// Whether the page budget is spent.
    pub fn is_full(&self) -> (b: bool)
        ensures
            b == self@.full(),
    {
        self.pages.len() >= self.max_pages
    }

    /// Takes in what reading a page gave. Tells whether to go on
    /// receiving: with the budget spent, the page is dropped and reading
    /// stops.
    pub fn take_page(
        &mut self,
        record: Result<CrawlResult, CrawlerError>,
        found: Result<Vec<KeywordMatch>, CrawlerError>,
    ) -> (go_on: bool)
        requires
            old(self)@.wf(),
        ensures
            final(self)@ == old(self)@.with_page(record_view(record), found_view(found)),
            go_on == !old(self)@.full(),
            final(self)@.wf(),
    {
        if self.pages.len() >= self.max_pages {
            self.stopped_early = true;
            return false;
        }
        match record {
            Ok(r) => {
                let ghost had = self.pages@;
                self.pages.push(r);
                assert(page_views(self.pages@) =~= page_views(had).push(r@));
            },
            Err(e) => {
                let ghost had = self.errors@;
                let why = e.message();
                self.errors.push(why);
                assert(texts(self.errors@) =~= texts(had).push(why@));
            },
        }
        match found {
            Ok(m) => {
                let mut m = m;
                let ghost had = self.matches@;
                let ghost new = m@;
                self.matches.append(&mut m);
                assert(match_views(self.matches@) =~= match_views(had) + match_views(new));
            },
            Err(e) => {
                let ghost had = self.errors@;
                let why = e.message();
                self.errors.push(why);
                assert(texts(self.errors@) =~= texts(had).push(why@));
            },
        }
        true
    }

    /// Reads a page that the engine fetched, unless the page budget is
    /// spent, and tells whether to go on receiving.
    pub fn on_page(&mut self, url: &str, html: &str) -> (go_on: bool)
        requires
            old(self)@.wf(),
        ensures
            go_on == !old(self)@.full(),
            final(self)@.wf(),
            exists|record: Result<CrawlResult, CrawlerError>, found: Result<Vec<KeywordMatch>, CrawlerError>|
                #[trigger] reads(record, found, *old(self), url@, html@) && final(self)@ == old(
                    self,
                )@.with_page(record_view(record), found_view(found)),
    {
        let record = process_page(url, html);
        let found = find_matches(html, &self.keywords);
        assert(reads(record, found, *self, url@, html@));
        self.take_page(record, found)
    }

    /// Ends the crawl of the seed. Where the time for the whole crawl ran
    /// out, the crawl fails and nothing of it is kept. Else the result
    /// holds what was read, and a note on the engine where it did not wind
    /// down in good order.
    pub fn conclude(self, end: CrawlEnd, crawl_time: String, elapsed_ms: u64) -> (res: Result<
        SeedCrawl,
        CrawlerError,
    >)
        requires
            self@.wf(),
        ensures
            res is Err <==> end is DeadlineElapsed,
            res matches Err(e) ==> e is TimeoutError,
            res matches Ok(crawl) ==> {
                &&& crawl.domain@ == self@.outcome(crawl_time@, elapsed_ms)
                &&& page_views(crawl.pages@) == self@.pages
                &&& texts(crawl.errors@) == self@.errors + DiscoveryView::end_notes(end)
                &&& crawl.domain.pages_crawled <= self@.max_pages
            },
    {
        let mut errors = self.errors;
        let ghost had = errors@;
        match end {
            CrawlEnd::DeadlineElapsed => {
                return Err(CrawlerError::TimeoutError);
            },
            CrawlEnd::EngineCompleted => {
                assert(texts(errors@) =~= texts(had) + Seq::<Seq<char>>::empty());
            },
            CrawlEnd::EngineFailed(why) => {
                let note = String::from_str(ENGINE_FAILURE_LABEL).concat(why.as_str());
                errors.push(note);
                assert(texts(errors@) =~= texts(had) + seq![ENGINE_FAILURE_LABEL@ + why@]);
            },
            CrawlEnd::EngineTimedOut => {
                let note = String::from_str(ENGINE_TIMEOUT_NOTE);
                errors.push(note);
                assert(texts(errors@) =~= texts(had) + seq![ENGINE_TIMEOUT_NOTE@]);
            },
        }
        let title = if self.pages.len() > 0 {
            assert(page_views(self.pages@)[0] == self.pages@[0]@);
            copy_text(&self.pages[0].title)
        } else {
            None
        };
        let content_summary = copy_text(&title);
        assert(page_views(self.pages@).len() == self.pages@.len());
        let domain = DomainResult {
            url: self.base_url,
            title,
            matches: self.matches,
            pages_crawled: self.pages.len(),
            has_more_pages: self.stopped_early,
            metadata: Some(
                CrawlMetadata { crawl_time, processing_time_ms: elapsed_ms, content_summary },
            ),
            error: None,
        };
        Ok(SeedCrawl { domain, pages: self.pages, errors })
    }
}

/// Whether `record` and `found` are what reading the page `html` at `url`
/// gives the consumer `d`: the record of the page, and the matches of the
/// keywords on it, each a failure exactly where its patterns are malformed.
pub open spec fn reads(
    record: Result<CrawlResult, CrawlerError>,
    found: Result<Vec<KeywordMatch>, CrawlerError>,
    d: Discovery,
    url: Seq<char>,
    html: Seq<char>,
) -> bool {
    &&& record is Ok <==> page_patterns_compile()
    &&& record matches Ok(r) ==> is_record_of(r@, url, html) && r@.crawl_time is Some
    &&& record matches Err(e) ==> e is SelectorError
    &&& found is Err <==> any_hit(html, d@.keywords) && !cleaning_patterns_compile()
    &&& found matches Ok(m) ==> match_views(m@) == matches_of(html, d@.keywords)
    &&& found matches Err(e) ==> e is SelectorError
}

} // verus!
