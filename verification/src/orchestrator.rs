//! The crawl of all the seeds of a request: one seed after the other, each
//! on its own, and their results brought together.

use vstd::prelude::*;
use crate::discovery::SeedCrawl;
use crate::error::CrawlerError;
use crate::model::{
    domain_views, page_views, CrawlRequest, CrawlResponse, CrawlResult, CrawlResultView,
    DomainResult, DomainResultView,
};
use crate::normalize::{normalize_urls, seeds_of};
use crate::text::texts;
use crate::traversal::{domain_failure, failed_domain};

verus! {

/// The pages read over all of `domains`.
pub open spec fn total_pages(domains: Seq<DomainResultView>) -> nat
    decreases domains.len(),
{
    if domains.len() == 0 {
        0
    } else {
        total_pages(domains.drop_last()) + domains.last().pages_crawled
    }
}

/// A count as far as the machine can hold it.
pub open spec fn clamped(n: nat) -> usize {
    if n > usize::MAX {
        usize::MAX
    } else {
        n as usize
    }
}

/// Counts the pages read over all of `domains`.
pub fn count_pages(domains: &Vec<DomainResult>) -> (total: usize)
    ensures
        total == clamped(total_pages(domain_views(domains@))),
{
    let ghost all = domain_views(domains@);
    let mut total: usize = 0;
    let mut i: usize = 0;
    assert(all.take(0) =~= Seq::<DomainResultView>::empty());
    while i < domains.len()
        invariant
            i <= domains.len(),
            all == domain_views(domains@),
            total == clamped(total_pages(all.take(i as int))),
        decreases domains.len() - i,
    {
        assert(all.take(i + 1).drop_last() =~= all.take(i as int));
        assert(all.take(i + 1).last() == domains@[i as int]@);
        let pages = domains[i].pages_crawled;
        total = if total > usize::MAX - pages {
            usize::MAX
        } else {
            total + pages
        };
        i += 1;
    }
    assert(all.take(domains.len() as int) == all);
    total
}

/// What the crawl of one seed gave, as a mathematical value.
pub ghost struct SeedCrawlView {
    pub domain: DomainResultView,
    pub pages: Seq<CrawlResultView>,
    pub errors: Seq<Seq<char>>,
}

/// The outcome of the crawl of one seed, as a mathematical value: what it
/// gave, or why it failed.
pub open spec fn outcome_view(outcome: Result<SeedCrawl, CrawlerError>) -> Result<
    SeedCrawlView,
    Seq<char>,
> {
    match outcome {
        Ok(crawl) => Ok(
            SeedCrawlView {
                domain: crawl.domain@,
                pages: page_views(crawl.pages@),
                errors: texts(crawl.errors@),
            },
        ),
        Err(e) => Err(e.description()),
    }
}

/// The state of a run as a mathematical value.
pub ghost struct CrawlRunView {
    pub seeds: Seq<Seq<char>>,
    pub domains: Seq<DomainResultView>,
    pub pages: Seq<CrawlResultView>,
    pub errors: Seq<Seq<char>>,
}

impl CrawlRunView {
    /// What holds of every state that a run can reach: no more results
    /// than seeds, and each result is that of the seed at its place.
    pub open spec fn wf(self) -> bool {
        &&& self.domains.len() <= self.seeds.len()
        &&& forall|i: int| 0 <= i < self.domains.len() ==> (#[trigger] self.domains[i]).url
            == self.seeds[i]
    }

    /// The state in which the run over `seeds` begins.
    pub open spec fn start(seeds: Seq<Seq<char>>) -> CrawlRunView {
        CrawlRunView { seeds, domains: Seq::empty(), pages: Seq::empty(), errors: Seq::empty() }
    }

    /// Whether every seed has its result.
    pub open spec fn complete(self) -> bool {
        self.domains.len() >= self.seeds.len()
    }

    /// The seed that is crawled next.
    pub open spec fn pending(self) -> Option<Seq<char>> {
        if self.complete() {
            None
        } else {
            Some(self.seeds[self.domains.len() as int])
        }
    }

    /// The state after the crawl of the pending seed ended with `outcome`:
    /// what it gave is kept, under the address of the seed; where it failed,
    /// the seed gets a result that holds the reason and nothing else. The
    /// other seeds are not touched.
    pub open spec fn recorded(self, outcome: Result<SeedCrawlView, Seq<char>>) -> CrawlRunView {
        if self.complete() {
            self
        } else {
            match outcome {
                Ok(crawl) => CrawlRunView {
                    domains: self.domains.push(
                        DomainResultView { url: self.pending()->0, ..crawl.domain },
                    ),
                    pages: self.pages + crawl.pages,
                    errors: self.errors + crawl.errors,
                    ..self
                },
                Err(why) => CrawlRunView {
                    domains: self.domains.push(failed_domain(self.pending()->0, why)),
                    ..self
                },
            }
        }
    }

    /// The state after the crawls of the next seeds ended with `outcomes`,
    /// in order.
    pub open spec fn recorded_all(self, outcomes: Seq<Result<SeedCrawlView, Seq<char>>>) -> CrawlRunView
        decreases outcomes.len(),
    {
        if outcomes.len() == 0 {
            self
        } else {
            self.recorded_all(outcomes.drop_last()).recorded(outcomes.last())
        }
    }
}

/// The crawl of all the seeds of a request.
#[derive(Debug, Clone)]
pub struct CrawlRun {
    seeds: Vec<String>,
    domains: Vec<DomainResult>,
    pages: Vec<CrawlResult>,
    errors: Vec<String>,
}

impl View for CrawlRun {
    type V = CrawlRunView;

    closed spec fn view(&self) -> CrawlRunView {
        CrawlRunView {
            seeds: texts(self.seeds@),
            domains: domain_views(self.domains@),
            pages: page_views(self.pages@),
            errors: texts(self.errors@),
        }
    }
}

impl CrawlRun {
    /// Begins the run over the seeds that the request names. The request
    /// is refused exactly where it names no URL that parses.
    pub fn start(request: &CrawlRequest) -> (res: Result<CrawlRun, CrawlerError>)
        ensures
            match res {
                Ok(run) => run@ == CrawlRunView::start(seeds_of(request.url@)) && run@.seeds.len()
                    > 0 && run@.wf(),
                Err(e) => seeds_of(request.url@).len() == 0 && e is UrlError,
            },
    {
        let seeds = normalize_urls(request.url.as_str())?;
        let run = CrawlRun { seeds, domains: Vec::new(), pages: Vec::new(), errors: Vec::new() };
        assert(domain_views(run.domains@) =~= Seq::<DomainResultView>::empty());
        assert(page_views(run.pages@) =~= Seq::<CrawlResultView>::empty());
        assert(texts(run.errors@) =~= Seq::<Seq<char>>::empty());
        assert(texts(run.seeds@).len() == run.seeds@.len());
        Ok(run)
    }

    /// How many seeds the run has.
    pub fn seed_count(&self) -> (n: usize)
        ensures
            n == self@.seeds.len(),
    {
        proof {
            assert(texts(self.seeds@).len() == self.seeds@.len());
        }
        self.seeds.len()
    }

    /// Whether every seed has its result.
    pub fn is_complete(&self) -> (b: bool)
        ensures
            b == self@.complete(),
    {
        proof {
            assert(texts(self.seeds@).len() == self.seeds@.len());
            assert(domain_views(self.domains@).len() == self.domains@.len());
        }
        self.domains.len() >= self.seeds.len()
    }

    /// The seed to crawl next, if one is left.
    pub fn next_seed(&self) -> (seed: Option<String>)
        ensures
            crate::text::text_of(seed) == self@.pending(),
    {
        proof {
            assert(texts(self.seeds@).len() == self.seeds@.len());
            assert(domain_views(self.domains@).len() == self.domains@.len());
        }
        if self.domains.len() >= self.seeds.len() {
            None
        } else {
            assert(texts(self.seeds@)[self.domains@.len() as int] == self.seeds@[self.domains@.len() as int]@);
            Some(self.seeds[self.domains.len()].clone())
        }
    }

    /// Takes in how the crawl of the pending seed ended. What the crawl
    /// gave is kept as the result of that seed, under the address of the
    /// seed. A failure becomes the result of that seed and ends nothing else.
    pub fn record(&mut self, outcome: Result<SeedCrawl, CrawlerError>)
        requires
            old(self)@.wf(),
        ensures
            final(self)@ == old(self)@.recorded(outcome_view(outcome)),
            final(self)@.wf(),
    {
        proof {
            assert(texts(self.seeds@).len() == self.seeds@.len());
            assert(domain_views(self.domains@).len() == self.domains@.len());
        }
        if self.domains.len() >= self.seeds.len() {
            return ;
        }
        let ghost had = self.domains@;
        assert(texts(self.seeds@)[self.domains@.len() as int] == self.seeds@[self.domains@.len() as int]@);
        match outcome {
            Ok(crawl) => {
                let mut pages = crawl.pages;
                let mut errors = crawl.errors;
                let mut domain = crawl.domain;
                domain.url = self.seeds[self.domains.len()].clone();
                let ghost had_pages = self.pages@;
                let ghost new_pages = pages@;
                let ghost had_errors = self.errors@;
                let ghost new_errors = errors@;
                self.domains.push(domain);
                self.pages.append(&mut pages);
                self.errors.append(&mut errors);
                assert(domain_views(self.domains@) =~= domain_views(had).push(domain@));
                assert(page_views(self.pages@) =~= page_views(had_pages) + page_views(new_pages));
                assert(texts(self.errors@) =~= texts(had_errors) + texts(new_errors));
            },
            Err(e) => {
                let seed = self.seeds[self.domains.len()].clone();
                let result = domain_failure(seed, e.message());
                self.domains.push(result);
                assert(domain_views(self.domains@) =~= domain_views(had).push(result@));
            },
        }
    }

    /// The answer to the request: the results in the order of the seeds,
    /// each under the address of its seed, the pages read over all of them
    /// counted, stamped with the moment the run ended and the time it took.
    /// Once every seed has its result, there is one result for each seed.
    pub fn finish(self, crawl_time: String, elapsed_ms: u64) -> (response: CrawlResponse)
        requires
            self@.wf(),
        ensures
            domain_views(response.domains@) == self@.domains,
            page_views(response.pages@) == self@.pages,
            texts(response.errors@) == self@.errors,
            response.total_pages_crawled == clamped(total_pages(self@.domains)),
            response.crawl_duration_ms == elapsed_ms,
            response.crawl_time@ == crawl_time@,
            self@.complete() ==> response.domains@.len() == self@.seeds.len(),
            forall|i: int|
                0 <= i < response.domains@.len() ==> (#[trigger] response.domains@[i]).url@
                    == self@.seeds[i],
    {
        proof {
            assert(domain_views(self.domains@).len() == self.domains@.len());
        }
        proof {
            assert forall|i: int| 0 <= i < self.domains@.len() implies (
            #[trigger] self.domains@[i]).url@ == self@.seeds[i] by {
                assert(domain_views(self.domains@)[i] == self.domains@[i]@);
            }
        }
        let total_pages_crawled = count_pages(&self.domains);
        CrawlResponse {
            domains: self.domains,
            pages: self.pages,
            total_pages_crawled,
            crawl_duration_ms: elapsed_ms,
            crawl_time,
            errors: self.errors,
        }
    }
}

} // verus!
