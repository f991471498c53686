//! The records that a crawl takes and gives.

use vstd::prelude::*;
use crate::text::{text_of, texts};

verus! {

/// The page budget of a pagination-following crawl where the request names
/// none.
pub const DEFAULT_MAX_PAGES_PAGINATION: u32 = 10;

/// The page budget of a link-discovering crawl where the request names none.
pub const DEFAULT_MAX_PAGES_DISCOVERY: u32 = 100;

/// The depth limit where the request names none.
pub const DEFAULT_MAX_DEPTH: u32 = 3;

/// The time budget in seconds where the request names none.
pub const DEFAULT_TIMEOUT_SECONDS: u64 = 60;

/// The depth limit of a crawl over the subdomains of a domain.
pub const SUBDOMAIN_MAX_DEPTH: u32 = 2;

/// The relevance score of a match that could not be more relevant, in
/// thousandths of a point: 100 points.
pub const MAX_RELEVANCE: u32 = 100_000;

/// One keyword found on a page.
#[derive(Debug, Clone, PartialEq, Eq)]
pub struct KeywordMatch {
    /// The keyword as it was asked for.
    pub keyword: String,
    /// The text around each occurrence, joined.
    pub context: String,
    /// The context without tags, with entities decoded and white space
    /// collapsed.
    pub cleaned_text: String,
    /// How often the keyword occurs on the page.
    pub occurrences: usize,
    /// The relevance of the match in thousandths of a point, from 0 to
    /// `MAX_RELEVANCE`.
    pub relevance_score: u32,
}

/// The mathematical content of a `KeywordMatch`.
pub ghost struct KeywordMatchView {
    pub keyword: Seq<char>,
    pub context: Seq<char>,
    pub cleaned_text: Seq<char>,
    pub occurrences: nat,
    pub relevance_score: nat,
}

impl View for KeywordMatch {
    type V = KeywordMatchView;

    open spec fn view(&self) -> KeywordMatchView {
        KeywordMatchView {
            keyword: self.keyword@,
            context: self.context@,
            cleaned_text: self.cleaned_text@,
            occurrences: self.occurrences as nat,
            relevance_score: self.relevance_score as nat,
        }
    }
}

/// The contents of a sequence of matches.
pub open spec fn match_views(v: Seq<KeywordMatch>) -> Seq<KeywordMatchView> {
    v.map_values(|m: KeywordMatch| m@)
}

/// When and how long a domain was crawled.
#[derive(Debug, Clone, PartialEq, Eq)]
pub struct CrawlMetadata {
    /// The moment the crawl of the domain ended.
    pub crawl_time: String,
    /// How long the crawl of the domain took, in milliseconds.
    pub processing_time_ms: u64,
    /// A summary of what was found: the title of the first page.
    pub content_summary: Option<String>,
}

/// The mathematical content of a `CrawlMetadata`.
pub ghost struct CrawlMetadataView {
    pub crawl_time: Seq<char>,
    pub processing_time_ms: nat,
    pub content_summary: Option<Seq<char>>,
}

impl View for CrawlMetadata {
    type V = CrawlMetadataView;

    open spec fn view(&self) -> CrawlMetadataView {
        CrawlMetadataView {
            crawl_time: self.crawl_time@,
            processing_time_ms: self.processing_time_ms as nat,
            content_summary: text_of(self.content_summary),
        }
    }
}

/// What the crawl of one seed URL gave.
#[derive(Debug, Clone, PartialEq, Eq)]
pub struct DomainResult {
    /// The seed URL.
    pub url: String,
    /// The title of the first page.
    pub title: Option<String>,
    /// The keywords found, page by page, each page in the order in which the
    /// keywords were asked for.
    pub matches: Vec<KeywordMatch>,
    /// How many pages were fetched and read.
    pub pages_crawled: usize,
    /// Whether the crawl stopped because a budget ran out.
    pub has_more_pages: bool,
    /// When and how long the domain was crawled; absent on failure.
    pub metadata: Option<CrawlMetadata>,
    /// Why the crawl of this seed failed, if it did.
    pub error: Option<String>,
}

/// The mathematical content of a `DomainResult`.
pub ghost struct DomainResultView {
    pub url: Seq<char>,
    pub title: Option<Seq<char>>,
    pub matches: Seq<KeywordMatchView>,
    pub pages_crawled: nat,
    pub has_more_pages: bool,
    pub metadata: Option<CrawlMetadataView>,
    pub error: Option<Seq<char>>,
}

impl View for DomainResult {
    type V = DomainResultView;

    open spec fn view(&self) -> DomainResultView {
        DomainResultView {
            url: self.url@,
            title: text_of(self.title),
            matches: match_views(self.matches@),
            pages_crawled: self.pages_crawled as nat,
            has_more_pages: self.has_more_pages,
            metadata: match self.metadata {
                Some(m) => Some(m@),
                None => None,
            },
            error: text_of(self.error),
        }
    }
}

/// The contents of a sequence of domain results.
pub open spec fn domain_views(v: Seq<DomainResult>) -> Seq<DomainResultView> {
    v.map_values(|d: DomainResult| d@)
}

/// What was read from one page.
#[derive(Debug, Clone, PartialEq, Eq)]
pub struct CrawlResult {
    /// The address of the page.
    pub url: String,
    /// The title of the page, if it has one.
    pub title: Option<String>,
    /// The visible text of the page.
    pub content: String,
    /// The links that leave the page, sorted, each once.
    pub links: Vec<String>,
    /// The status the page was served with, where it is known.
    pub status_code: Option<u16>,
    /// The moment the page was read.
    pub crawl_time: Option<String>,
}

/// The mathematical content of a `CrawlResult`.
pub ghost struct CrawlResultView {
    pub url: Seq<char>,
    pub title: Option<Seq<char>>,
    pub content: Seq<char>,
    pub links: Seq<Seq<char>>,
    pub status_code: Option<u16>,
    pub crawl_time: Option<Seq<char>>,
}

impl View for CrawlResult {
    type V = CrawlResultView;

    open spec fn view(&self) -> CrawlResultView {
        CrawlResultView {
            url: self.url@,
            title: text_of(self.title),
            content: self.content@,
            links: texts(self.links@),
            status_code: self.status_code,
            crawl_time: text_of(self.crawl_time),
        }
    }
}

/// The contents of a sequence of page records.
pub open spec fn page_views(v: Seq<CrawlResult>) -> Seq<CrawlResultView> {
    v.map_values(|p: CrawlResult| p@)
}

/// How a seed is traversed.
#[derive(Debug, Clone, Copy, PartialEq, Eq, Structural)]
pub enum TraversalStrategy {
    /// One page after the other, along the "next page" links.
    PaginationFollow,
    /// Every page that an outside crawling engine discovers.
    LinkDiscovery,
}

/// What a client asks for.
#[derive(Debug, Clone, PartialEq, Eq)]
pub struct CrawlRequest {
    /// One or more seed URLs, separated by commas.
    pub url: String,
    /// The keywords to look for, in order; one may occur twice. A keyword
    /// is matched without regard to the case of the ASCII letters `A` to
    /// `Z`; every other character, accented letters too, must stand on the
    /// page as it stands in the keyword.
    pub keywords: Vec<String>,
    /// The most pages to read per seed.
    pub max_pages: Option<u32>,
    /// How far from the seed the crawl may go.
    pub max_depth: Option<u32>,
    /// The most seconds to spend per seed.
    pub timeout_seconds: Option<u64>,
    /// Whether to follow "next page" links. Where it is set, the seed is
    /// traversed page after page; where it is absent, by link discovery.
    pub follow_pagination: Option<bool>,
    /// Whether the subdomains of the seed are crawled too.
    pub include_subdomains: Option<bool>,
}

impl CrawlRequest {
    /// The strategy that the request selects.
    pub open spec fn strategy_of(self) -> TraversalStrategy {
        if self.follow_pagination is Some {
            TraversalStrategy::PaginationFollow
        } else {
            TraversalStrategy::LinkDiscovery
        }
    }

    /// The page budget of the request under its strategy.
    pub open spec fn max_pages_of(self) -> nat {
        match self.max_pages {
            Some(n) => n as nat,
            None => if self.follow_pagination is Some {
                DEFAULT_MAX_PAGES_PAGINATION as nat
            } else {
                DEFAULT_MAX_PAGES_DISCOVERY as nat
            },
        }
    }

    /// The depth limit of the request.
    pub open spec fn max_depth_of(self) -> nat {
        match self.max_depth {
            Some(n) => n as nat,
            None => DEFAULT_MAX_DEPTH as nat,
        }
    }

    /// The time budget of the request in seconds.
    pub open spec fn timeout_seconds_of(self) -> nat {
        match self.timeout_seconds {
            Some(n) => n as nat,
            None => DEFAULT_TIMEOUT_SECONDS as nat,
        }
    }

    /// The strategy that the request selects.
    pub fn strategy(&self) -> (s: TraversalStrategy)
        ensures
            s == self.strategy_of(),
    {
        if self.follow_pagination.is_some() {
            TraversalStrategy::PaginationFollow
        } else {
            TraversalStrategy::LinkDiscovery
        }
    }

    /// The page budget: what the request names, else 10 when following
    /// pagination and 100 when discovering links.
    pub fn effective_max_pages(&self) -> (n: u32)
        ensures
            n == self.max_pages_of(),
    {
        match self.max_pages {
            Some(n) => n,
            None => if self.follow_pagination.is_some() {
                DEFAULT_MAX_PAGES_PAGINATION
            } else {
                DEFAULT_MAX_PAGES_DISCOVERY
            },
        }
    }

    /// The depth limit: what the request names, else 3.
    pub fn effective_max_depth(&self) -> (n: u32)
        ensures
            n == self.max_depth_of(),
    {
        match self.max_depth {
            Some(n) => n,
            None => DEFAULT_MAX_DEPTH,
        }
    }

    /// The time budget in seconds: what the request names, else 60.
    pub fn effective_timeout_seconds(&self) -> (n: u64)
        ensures
            n == self.timeout_seconds_of(),
    {
        match self.timeout_seconds {
            Some(n) => n,
            None => DEFAULT_TIMEOUT_SECONDS,
        }
    }

    /// Whether "next page" links are followed: only where the request says
    /// so.
    pub fn follows_pagination(&self) -> (b: bool)
        ensures
            b == (self.follow_pagination == Some(true)),
    {
        match self.follow_pagination {
            Some(b) => b,
            None => false,
        }
    }

    /// Whether subdomains are crawled too: only where the request says so.
    pub fn includes_subdomains(&self) -> (b: bool)
        ensures
            b == (self.include_subdomains == Some(true)),
    {
        match self.include_subdomains {
            Some(b) => b,
            None => false,
        }
    }
}

/// The answer to a request.
#[derive(Debug, Clone, PartialEq, Eq)]
pub struct CrawlResponse {
    /// One result per seed URL, in the order of the seeds.
    pub domains: Vec<DomainResult>,
    /// The pages read by link discovery, in the order in which they came.
    pub pages: Vec<CrawlResult>,
    /// How many pages were read, over all seeds.
    pub total_pages_crawled: usize,
    /// How long the whole crawl took, in milliseconds.
    pub crawl_duration_ms: u64,
    /// The moment the crawl ended.
    pub crawl_time: String,
    /// What went wrong without ending the crawl.
    pub errors: Vec<String>,
}

} // verus!
