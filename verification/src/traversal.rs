//! The sequential traversal of one seed: page after page along the "next
//! page" links, within a budget of pages and of time.
//!
//! The traversal is a state machine. Its owner asks it what to do
//! (`poll`), fetches the page it names, and hands the page back (`on_page`)
//! or reports that the fetch failed (`fail`). The machine never fetches
//! anything itself.

use vstd::prelude::*;
use crate::bindings::{regex_captures, regex_compiles};
use crate::clock::Deadline;
use crate::error::CrawlerError;
use crate::extract::{cleaning_patterns_compile, extract_title, title_of, TITLE_PATTERN};
use crate::keywords::{extract_matches, Extraction};
use crate::links::{find_next_page, first_target, next_page_of, pagination_patterns};
use crate::model::{
    match_views, CrawlMetadata, CrawlMetadataView, CrawlRequest, DomainResult, DomainResultView,
    KeywordMatch, KeywordMatchView,
};
use crate::text::{contains_text, text_of, texts};

verus! {

/// The limits of a traversal.
#[derive(Debug, Clone, Copy, PartialEq, Eq, Structural)]
pub struct CrawlBudget {
    /// The most pages to read.
    pub max_pages: usize,
    /// The most milliseconds to spend.
    pub max_millis: u64,
    /// Whether to go on to the page that a page names as the next.
    pub follow_pagination: bool,
}

/// The milliseconds in `seconds`, or the largest number where there are too
/// many to count.
pub open spec fn millis_of(seconds: u64) -> u64 {
    if seconds * 1000 > u64::MAX {
        u64::MAX
    } else {
        (seconds * 1000) as u64
    }
}

impl CrawlBudget {
    /// The budget that a request asks for.
    pub open spec fn of_request(request: CrawlRequest) -> CrawlBudget {
        CrawlBudget {
            max_pages: request.max_pages_of() as usize,
            max_millis: millis_of(request.timeout_seconds_of() as u64),
            follow_pagination: request.follow_pagination == Some(true),
        }
    }

    /// The budget that a request asks for: its page budget, its time budget
    /// in milliseconds, and whether it follows pagination.
    pub fn from_request(request: &CrawlRequest) -> (budget: CrawlBudget)
        ensures
            budget == CrawlBudget::of_request(*request),
    {
        let seconds = request.effective_timeout_seconds();
        let max_millis = match seconds.checked_mul(1000) {
            Some(ms) => ms,
            None => u64::MAX,
        };
        CrawlBudget {
            max_pages: request.effective_max_pages() as usize,
            max_millis,
            follow_pagination: request.follows_pagination(),
        }
    }
}

/// Where a traversal stands.
#[derive(Debug, Clone, Copy, PartialEq, Eq, Structural)]
pub enum Phase {
    /// A page is to be fetched, read, and searched for the next one.
    Fetching,
    /// The traversal ended: no further page, or no page left in the budget.
    Done,
    /// The traversal ended because its time ran out.
    TimedOut,
    /// The traversal ended because a page could not be fetched or read.
    Failed,
}

/// What the owner of a traversal is to do next.
#[derive(Debug, Clone, PartialEq, Eq)]
pub enum Action {
    /// Fetch the page at this address and hand it back.
    Fetch(String),
    /// Nothing more: collect the result.
    Finish,
}

/// The mathematical content of an `Action`.
pub ghost enum ActionView {
    Fetch(Seq<char>),
    Finish,
}

impl View for Action {
    type V = ActionView;

    open spec fn view(&self) -> ActionView {
        match self {
            Action::Fetch(url) => ActionView::Fetch(url@),
            Action::Finish => ActionView::Finish,
        }
    }
}

/// The state of a traversal as a mathematical value.
pub ghost struct TraversalView {
    pub seed: Seq<char>,
    pub current: Seq<char>,
    pub keywords: Seq<Seq<char>>,
    pub budget: CrawlBudget,
    pub visited: Seq<Seq<char>>,
    pub title: Option<Seq<char>>,
    pub matches: Seq<KeywordMatchView>,
    pub pages_crawled: nat,
    pub has_more_pages: bool,
    pub phase: Phase,
    pub failure: Option<Seq<char>>,
}

impl TraversalView {
    /// What holds of every state that a traversal can reach.
    pub open spec fn wf(self) -> bool {
        &&& self.pages_crawled <= self.budget.max_pages
        &&& self.visited.no_duplicates()
        &&& self.visited.len() > 0
        &&& self.visited[0] == self.seed
        &&& self.visited.contains(self.current)
        &&& self.phase == Phase::Fetching ==> !self.has_more_pages
        &&& self.phase == Phase::TimedOut ==> self.has_more_pages
        &&& self.phase == Phase::Failed <==> self.failure is Some
    }

    /// The state in which a traversal begins: nothing read, the seed about
    /// to be fetched and already marked as visited.
    pub open spec fn start(
        seed: Seq<char>,
        keywords: Seq<Seq<char>>,
        budget: CrawlBudget,
    ) -> TraversalView {
        TraversalView {
            seed,
            current: seed,
            keywords,
            budget,
            visited: seq![seed],
            title: None,
            matches: Seq::empty(),
            pages_crawled: 0,
            has_more_pages: false,
            phase: Phase::Fetching,
            failure: None,
        }
    }

    /// Whether the traversal is over.
    pub open spec fn finished(self) -> bool {
        self.phase != Phase::Fetching
    }

    /// The state after the budgets were checked, `expired` telling whether
    /// the time is spent: a traversal that goes on ends here where the
    /// time, or else the page budget, is spent, and more pages are owed.
    pub open spec fn polled(self, expired: bool) -> TraversalView {
        if self.finished() {
            self
        } else if expired {
            TraversalView { phase: Phase::TimedOut, has_more_pages: true, ..self }
        } else if self.pages_crawled >= self.budget.max_pages {
            TraversalView { phase: Phase::Done, has_more_pages: true, ..self }
        } else {
            self
        }
    }

    /// What the owner is to do after the budgets were checked.
    pub open spec fn action(self, expired: bool) -> ActionView {
        if self.polled(expired).finished() {
            ActionView::Finish
        } else {
            ActionView::Fetch(self.current)
        }
    }

    /// Whether the traversal waits for a page.
    pub open spec fn awaits_page(self) -> bool {
        !self.finished() && self.pages_crawled < self.budget.max_pages
    }

    /// The state after a page was read, given what was read from it: its
    /// title, the matches found on it and whether looking for them ran out
    /// of time, and the next page it names. A traversal that waits for no
    /// page stays as it is.
    pub open spec fn with_page(
        self,
        title: Option<Seq<char>>,
        matches: Seq<KeywordMatchView>,
        timed_out: bool,
        next: Option<Seq<char>>,
    ) -> TraversalView {
        if !self.awaits_page() {
            self
        } else {
            let read = TraversalView {
                title: if self.pages_crawled == 0 {
                    title
                } else {
                    self.title
                },
                matches: self.matches + matches,
                pages_crawled: self.pages_crawled + 1,
                ..self
            };
            if timed_out {
                TraversalView { phase: Phase::TimedOut, has_more_pages: true, ..read }
            } else if !self.budget.follow_pagination {
                TraversalView { phase: Phase::Done, ..read }
            } else {
                match next {
                    None => TraversalView { phase: Phase::Done, ..read },
                    Some(url) => if self.visited.contains(url) {
                        TraversalView { phase: Phase::Done, ..read }
                    } else {
                        TraversalView { current: url, visited: self.visited.push(url), ..read }
                    },
                }
            }
        }
    }

    /// The state after the page `body` was read, given the matches found on
    /// it: the title is taken from the first page only, and the next page is
    /// looked for only where pagination is followed and time was left.
    pub open spec fn after_reading(
        self,
        body: Seq<char>,
        matches: Seq<KeywordMatchView>,
        timed_out: bool,
    ) -> TraversalView {
        self.with_page(
            if self.pages_crawled == 0 {
                title_of(regex_captures(TITLE_PATTERN@, body))
            } else {
                None
            },
            matches,
            timed_out,
            if self.budget.follow_pagination && !timed_out {
                match first_target(pagination_patterns(), body) {
                    Ok(target) => next_page_of(self.current, target),
                    Err(_) => None,
                }
            } else {
                None
            },
        )
    }

    /// The state after a page could not be fetched or read: a traversal
    /// that goes on fails with `reason`.
    pub open spec fn with_failure(self, reason: Seq<char>) -> TraversalView {
        if self.finished() {
            self
        } else {
            TraversalView { phase: Phase::Failed, failure: Some(reason), ..self }
        }
    }

    /// What the traversal gave: after a failure the reason and nothing
    /// else; otherwise what was read, with when and how long it took.
    pub open spec fn outcome(self, crawl_time: Seq<char>, elapsed_ms: u64) -> DomainResultView {
        match self.failure {
            Some(reason) => failed_domain(self.seed, reason),
            None => DomainResultView {
                url: self.seed,
                title: self.title,
                matches: self.matches,
                pages_crawled: self.pages_crawled,
                has_more_pages: self.has_more_pages,
                metadata: Some(
                    CrawlMetadataView {
                        crawl_time,
                        processing_time_ms: elapsed_ms as nat,
                        content_summary: self.title,
                    },
                ),
                error: None,
            },
        }
    }
}

/// The result of a seed whose crawl failed: the reason, and nothing read.
pub open spec fn failed_domain(url: Seq<char>, reason: Seq<char>) -> DomainResultView {
    DomainResultView {
        url,
        title: None,
        matches: Seq::empty(),
        pages_crawled: 0,
        has_more_pages: false,
        metadata: None,
        error: Some(reason),
    }
}

/// Builds the result of a seed whose crawl failed.
pub fn domain_failure(url: String, reason: String) -> (result: DomainResult)
    ensures
        result@ == failed_domain(url@, reason@),
{
    let result = DomainResult {
        url,
        title: None,
        matches: Vec::new(),
        pages_crawled: 0,
        has_more_pages: false,
        metadata: None,
        error: Some(reason),
    };
    assert(match_views(result.matches@) =~= Seq::<KeywordMatchView>::empty());
    result
}

/// A copy of an optional text.
pub fn copy_text(o: &Option<String>) -> (r: Option<String>)
    ensures
        text_of(r) == text_of(*o),
{
    match o {
        Some(s) => Some(s.clone()),
        None => None,
    }
}

/// The sequential traversal of one seed.
#[derive(Debug, Clone)]
pub struct Traversal {
    seed: String,
    current: String,
    keywords: Vec<String>,
    budget: CrawlBudget,
    visited: Vec<String>,
    title: Option<String>,
    matches: Vec<KeywordMatch>,
    pages_crawled: usize,
    has_more_pages: bool,
    phase: Phase,
    failure: Option<String>,
}

impl View for Traversal {
    type V = TraversalView;

    closed spec fn view(&self) -> TraversalView {
        TraversalView {
            seed: self.seed@,
            current: self.current@,
            keywords: texts(self.keywords@),
            budget: self.budget,
            visited: texts(self.visited@),
            title: text_of(self.title),
            matches: match_views(self.matches@),
            pages_crawled: self.pages_crawled as nat,
            has_more_pages: self.has_more_pages,
            phase: self.phase,
            failure: text_of(self.failure),
        }
    }
}

impl Traversal {
    /// Begins the traversal of `seed`. The seed counts as visited from the
    /// start, so that no page can lead back to it.
    pub fn new(seed: String, keywords: Vec<String>, budget: CrawlBudget) -> (t: Traversal)
        ensures
            t@ == TraversalView::start(seed@, texts(keywords@), budget),
            t@.wf(),
    {
        let mut visited: Vec<String> = Vec::new();
        visited.push(seed.clone());
        let t = Traversal {
            current: seed.clone(),
            seed,
            keywords,
            budget,
            visited,
            title: None,
            matches: Vec::new(),
            pages_crawled: 0,
            has_more_pages: false,
            phase: Phase::Fetching,
            failure: None,
        };
        assert(texts(t.visited@) =~= seq![t.seed@]);
        assert(match_views(t.matches@) =~= Seq::<KeywordMatchView>::empty());
        assert(texts(t.visited@)[0] == t.current@);
        t
    }

    /// Where the traversal stands.
    pub fn phase(&self) -> (p: Phase)
        ensures
            p == self@.phase,
    {
        self.phase
    }

    /// Whether the traversal is over.
    pub fn is_finished(&self) -> (b: bool)
        ensures
            b == self@.finished(),
    {
        match self.phase {
            Phase::Fetching => false,
            _ => true,
        }
    }

    /// How many pages were read.
    pub fn pages_crawled(&self) -> (n: usize)
        ensures
            n == self@.pages_crawled,
    {
        self.pages_crawled
    }

    /// Whether the traversal stopped because a budget ran out.
    pub fn has_more_pages(&self) -> (b: bool)
        ensures
            b == self@.has_more_pages,
    {
        self.has_more_pages
    }

    /// Checks the budgets, `expired` telling whether the time is spent, and
    /// says what to do next: fetch the current page, or finish.
    pub fn poll(&mut self, expired: bool) -> (action: Action)
        requires
            old(self)@.wf(),
        ensures
            final(self)@ == old(self)@.polled(expired),
            action@ == old(self)@.action(expired),
            final(self)@.wf(),
    {
        if self.is_finished() {
            return Action::Finish;
        }
        if expired {
            self.phase = Phase::TimedOut;
            self.has_more_pages = true;
            return Action::Finish;
        }
        if self.pages_crawled >= self.budget.max_pages {
            self.phase = Phase::Done;
            self.has_more_pages = true;
            return Action::Finish;
        }
        Action::Fetch(self.current.clone())
    }

    /// Takes in what was read from the page that was fetched: its title,
    /// the matches found on it, and the next page it names.
    pub fn apply_page(&mut self, title: Option<String>, extraction: Extraction, next: Option<String>)
        requires
            old(self)@.wf(),
        ensures
            final(self)@ == old(self)@.with_page(
                text_of(title),
                match_views(extraction.matches@),
                extraction.timed_out,
                text_of(next),
            ),
            final(self)@.wf(),
    {
        if self.is_finished() || self.pages_crawled >= self.budget.max_pages {
            return ;
        }
        let ghost before = self@;
        if self.pages_crawled == 0 {
            self.title = title;
        }
        let mut found = extraction.matches;
        let ghost had = self.matches@;
        let ghost new = found@;
        self.matches.append(&mut found);
        assert(match_views(self.matches@) =~= match_views(had) + match_views(new));
        self.pages_crawled = self.pages_crawled + 1;
        if extraction.timed_out {
            self.phase = Phase::TimedOut;
            self.has_more_pages = true;
        } else if !self.budget.follow_pagination {
            self.phase = Phase::Done;
        } else {
            match next {
                None => {
                    self.phase = Phase::Done;
                },
                Some(url) => {
                    if contains_text(&self.visited, &url) {
                        self.phase = Phase::Done;
                    } else {
                        let ghost seen = self.visited@;
                        self.visited.push(url.clone());
                        self.current = url;
                        proof {
                            assert(texts(self.visited@) =~= texts(seen).push(url@));
                            let now = texts(self.visited@);
                            assert(now[now.len() - 1] == url@);
                            assert forall|i: int, j: int|
                                0 <= i < now.len() && 0 <= j < now.len() && i != j implies now[i]
                                != now[j] by {
                                if i < seen.len() {
                                    assert(texts(seen)[i] == now[i]);
                                }
                                if j < seen.len() {
                                    assert(texts(seen)[j] == now[j]);
                                }
                            }
                        }
                    }
                },
            }
        }
    }

    /// Reads the page that was fetched: its title if it is the first page,
    /// the keywords on it for as long as the time lasts, and, where
    /// pagination is followed and time is left, the page that follows.
    /// Succeeds wherever the patterns are well formed; a malformed pattern
    /// makes the traversal fail. With a time budget of nothing and a keyword
    /// to look for, the page is counted and the traversal times out.
    pub fn on_page(&mut self, body: &str, deadline: &Deadline) -> (res: Result<(), CrawlerError>)
        requires
            old(self)@.wf(),
        ensures
            final(self)@.wf(),
            res is Ok ==> !old(self)@.awaits_page() ==> final(self)@ == old(self)@,
            res is Ok ==> old(self)@.awaits_page() ==> exists|x: Extraction|
                #[trigger] x.is_scan_of(body@, old(self)@.keywords) && final(self)@ == old(
                    self,
                )@.after_reading(body@, match_views(x.matches@), x.timed_out),
            res matches Err(e) ==> e is SelectorError && old(self)@.awaits_page() && final(self)@
                == old(self)@.with_failure(e.description()),
            regex_compiles(TITLE_PATTERN@) && cleaning_patterns_compile() && first_target(
                pagination_patterns(),
                body@,
            ) is Ok ==> res is Ok,
            res is Ok && old(self)@.awaits_page() && deadline.limit() == 0
                && old(self)@.keywords.len() > 0 ==> final(self)@.phase == Phase::TimedOut
                && final(self)@.pages_crawled == old(self)@.pages_crawled + 1,
    {
        if self.is_finished() || self.pages_crawled >= self.budget.max_pages {
            return Ok(());
        }
        let title = if self.pages_crawled == 0 {
            match extract_title(body) {
                Ok(t) => t,
                Err(e) => {
                    self.fail(e.message());
                    return Err(e);
                },
            }
        } else {
            None
        };
        let x = match extract_matches(body, &self.keywords, deadline) {
            Ok(x) => x,
            Err(e) => {
                self.fail(e.message());
                return Err(e);
            },
        };
        let next = if self.budget.follow_pagination && !x.timed_out {
            match find_next_page(body, self.current.as_str()) {
                Ok(n) => n,
                Err(e) => {
                    self.fail(e.message());
                    return Err(e);
                },
            }
        } else {
            None
        };
        let ghost scan = x;
        self.apply_page(title, x, next);
        assert(scan.is_scan_of(body@, old(self)@.keywords));
        Ok(())
    }

    /// Takes in that the page could not be fetched or read: a traversal
    /// that goes on fails with `reason`.
    pub fn fail(&mut self, reason: String)
        requires
            old(self)@.wf(),
        ensures
            final(self)@ == old(self)@.with_failure(reason@),
            final(self)@.wf(),
    {
        if !self.is_finished() {
            self.phase = Phase::Failed;
            self.failure = Some(reason);
        }
    }

    /// What the traversal gave, stamped with the moment it ended and the
    /// time it took. The pages read never exceed the page budget.
    pub fn finish(self, crawl_time: String, elapsed_ms: u64) -> (result: DomainResult)
        requires
            self@.wf(),
        ensures
            result@ == self@.outcome(crawl_time@, elapsed_ms),
            result.pages_crawled <= self@.budget.max_pages,
    {
        match self.failure {
            Some(reason) => domain_failure(self.seed, reason),
            None => {
                let content_summary = copy_text(&self.title);
                DomainResult {
                    url: self.seed,
                    title: self.title,
                    matches: self.matches,
                    pages_crawled: self.pages_crawled,
                    has_more_pages: self.has_more_pages,
                    metadata: Some(
                        CrawlMetadata { crawl_time, processing_time_ms: elapsed_ms, content_summary },
                    ),
                    error: None,
                }
            },
        }
    }
}

} // verus!
