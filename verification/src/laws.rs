//! What holds of every crawl, whatever the pages hold and however the clock
//! runs.

use vstd::prelude::*;
use crate::discovery::DiscoveryView;
use crate::model::{CrawlResultView, KeywordMatchView};
use crate::normalize::seeds_of;
use crate::orchestrator::{CrawlRunView, SeedCrawlView};
use crate::traversal::{failed_domain, ActionView, CrawlBudget, Phase, TraversalView};

verus! {

/// A run that has taken in the outcome of as many crawls as it has seeds
/// holds exactly one result for each seed, whether the crawls succeeded or
/// failed, and the result at each place is that of the seed at that place:
/// a seed that did not parse is no seed and has no result.
pub proof fn lemma_one_result_per_seed(
    seeds: Seq<Seq<char>>,
    outcomes: Seq<Result<SeedCrawlView, Seq<char>>>,
)
    requires
        outcomes.len() <= seeds.len(),
    ensures
        CrawlRunView::start(seeds).recorded_all(outcomes).seeds == seeds,
        CrawlRunView::start(seeds).recorded_all(outcomes).domains.len() == outcomes.len(),
        CrawlRunView::start(seeds).recorded_all(outcomes).wf(),
        forall|i: int|
            0 <= i < outcomes.len() ==> (#[trigger] CrawlRunView::start(seeds).recorded_all(
                outcomes,
            ).domains[i]).url == seeds[i],
        outcomes.len() == seeds.len() ==> CrawlRunView::start(seeds).recorded_all(
            outcomes,
        ).complete(),
    decreases outcomes.len(),
{
    if outcomes.len() > 0 {
        lemma_one_result_per_seed(seeds, outcomes.drop_last());
        let before = CrawlRunView::start(seeds).recorded_all(outcomes.drop_last());
        lemma_seeds_are_isolated(before, outcomes.last());
    }
}

/// The results of a request stand for the seeds that its input gives, in
/// the order of the input: once the outcome of every crawl is taken in,
/// there are as many results as the input has segments that parse, and the
/// result at each place carries the address of the seed at that place.
pub proof fn lemma_results_follow_the_input(
    raw: Seq<char>,
    outcomes: Seq<Result<SeedCrawlView, Seq<char>>>,
)
    requires
        outcomes.len() == seeds_of(raw).len(),
    ensures
        ({
            let run = CrawlRunView::start(seeds_of(raw)).recorded_all(outcomes);
            &&& run.complete()
            &&& run.domains.len() == seeds_of(raw).len()
            &&& forall|i: int|
                0 <= i < run.domains.len() ==> (#[trigger] run.domains[i]).url == seeds_of(
                    raw,
                )[i]
        }),
{
    lemma_one_result_per_seed(seeds_of(raw), outcomes);
}

/// A traversal begins in a state that keeps the invariant.
pub proof fn lemma_start_is_well_formed(
    seed: Seq<char>,
    keywords: Seq<Seq<char>>,
    budget: CrawlBudget,
)
    ensures
        TraversalView::start(seed, keywords, budget).wf(),
{
    let t = TraversalView::start(seed, keywords, budget);
    assert(t.visited[0] == seed);
}

/// Every step of a traversal keeps the invariant.
pub proof fn lemma_steps_keep_well_formed(
    t: TraversalView,
    expired: bool,
    title: Option<Seq<char>>,
    matches: Seq<KeywordMatchView>,
    timed_out: bool,
    next: Option<Seq<char>>,
    reason: Seq<char>,
)
    requires
        t.wf(),
    ensures
        t.polled(expired).wf(),
        t.with_page(title, matches, timed_out, next).wf(),
        t.with_failure(reason).wf(),
{
    let after = t.with_page(title, matches, timed_out, next);
    if t.awaits_page() && !timed_out && t.budget.follow_pagination && next is Some
        && !t.visited.contains(next->0) {
        let url = next->0;
        assert(after.visited == t.visited.push(url));
        assert(after.visited[after.visited.len() - 1] == url);
        assert(after.visited[0] == t.visited[0]);
        assert forall|i: int, j: int|
            0 <= i < after.visited.len() && 0 <= j < after.visited.len() && i != j implies after.visited[i]
            != after.visited[j] by {
            if i < t.visited.len() {
                assert(t.visited[i] == after.visited[i]);
            }
            if j < t.visited.len() {
                assert(t.visited[j] == after.visited[j]);
            }
        }
    }
}

/// In every state that a traversal can reach, and in the result it gives,
/// the pages read are within the page budget, whatever the budget is.
pub proof fn lemma_pages_within_budget(t: TraversalView, crawl_time: Seq<char>, elapsed_ms: u64)
    requires
        t.wf(),
    ensures
        t.pages_crawled <= t.budget.max_pages,
        t.outcome(crawl_time, elapsed_ms).pages_crawled <= t.budget.max_pages,
{
}

/// Without pagination a traversal reads exactly one page: once the first
/// page was fetched and read, the traversal is over with one page read,
/// however large the page budget and whatever the page names as the next. It
/// does not hold where no page may be read at all, or where the time is
/// spent before the first fetch.
pub proof fn lemma_single_page_without_pagination(
    seed: Seq<char>,
    keywords: Seq<Seq<char>>,
    budget: CrawlBudget,
    title: Option<Seq<char>>,
    matches: Seq<KeywordMatchView>,
    timed_out: bool,
    next: Option<Seq<char>>,
    expired_later: bool,
)
    requires
        !budget.follow_pagination,
        budget.max_pages >= 1,
    ensures
        ({
            let begun = TraversalView::start(seed, keywords, budget);
            let read = begun.polled(false).with_page(title, matches, timed_out, next);
            &&& begun.action(false) == ActionView::Fetch(seed)
            &&& read.pages_crawled == 1
            &&& read.finished()
            &&& !timed_out ==> read.phase == Phase::Done && !read.has_more_pages
            &&& read.polled(expired_later) == read
            &&& read.action(expired_later) == ActionView::Finish
            &&& read.with_page(title, matches, timed_out, next) == read
        }),
{
}

/// A page that names a page already visited as the next ends the
/// traversal in good order: it is done, owes no more pages, and has not
/// failed.
pub proof fn lemma_revisit_ends_traversal(
    t: TraversalView,
    title: Option<Seq<char>>,
    matches: Seq<KeywordMatchView>,
    url: Seq<char>,
)
    requires
        t.wf(),
        t.awaits_page(),
        t.budget.follow_pagination,
        t.visited.contains(url),
    ensures
        ({
            let after = t.with_page(title, matches, false, Some(url));
            &&& after.phase == Phase::Done
            &&& !after.has_more_pages
            &&& after.failure is None
            &&& after.visited == t.visited
            &&& after.pages_crawled == t.pages_crawled + 1
        }),
{
}

/// The seed is visited from the start: a first page that names the seed as
/// the next ends the traversal.
pub proof fn lemma_seed_is_not_revisited(
    seed: Seq<char>,
    keywords: Seq<Seq<char>>,
    budget: CrawlBudget,
    title: Option<Seq<char>>,
    matches: Seq<KeywordMatchView>,
)
    requires
        budget.follow_pagination,
        budget.max_pages >= 1,
    ensures
        TraversalView::start(seed, keywords, budget).with_page(
            title,
            matches,
            false,
            Some(seed),
        ).phase == Phase::Done,
{
    let begun = TraversalView::start(seed, keywords, budget);
    assert(begun.visited[0] == seed);
}

/// Time that is spent when the budgets are checked ends a traversal that
/// goes on: it owes more pages, has read no page more, and has not failed.
/// So a traversal whose time is spent before the first fetch reads no page,
/// and one whose time is spent during the first fetch reads one.
pub proof fn lemma_spent_time_ends_traversal(t: TraversalView)
    requires
        t.wf(),
        !t.finished(),
    ensures
        ({
            let after = t.polled(true);
            &&& after.phase == Phase::TimedOut
            &&& after.has_more_pages
            &&& after.failure is None
            &&& after.pages_crawled == t.pages_crawled
            &&& t.action(true) == ActionView::Finish
        }),
{
}

/// A traversal whose time runs out while the first page is fetched or read
/// owes more pages and has read at most one: none where the time was spent
/// before the fetch, one where it ran out while the page was searched, or
/// where the page named an unvisited next page and the time was spent at the
/// next check.
pub proof fn lemma_short_budget_reads_at_most_one_page(
    seed: Seq<char>,
    keywords: Seq<Seq<char>>,
    budget: CrawlBudget,
    title: Option<Seq<char>>,
    matches: Seq<KeywordMatchView>,
    next: Seq<char>,
)
    requires
        budget.max_pages >= 1,
        budget.follow_pagination,
        next != seed,
    ensures
        ({
            let begun = TraversalView::start(seed, keywords, budget);
            let at_once = begun.polled(true);
            let while_reading = begun.polled(false).with_page(title, matches, true, Some(next));
            let after_reading = begun.polled(false).with_page(title, matches, false, Some(next)).polled(
                true,
            );
            &&& at_once.has_more_pages && at_once.pages_crawled == 0 && at_once.failure is None
            &&& while_reading.has_more_pages && while_reading.pages_crawled == 1
                && while_reading.failure is None
            &&& after_reading.has_more_pages && after_reading.pages_crawled == 1
                && after_reading.failure is None
        }),
{
    let begun = TraversalView::start(seed, keywords, budget);
    assert(begun.visited =~= seq![seed]);
    assert(!begun.visited.contains(next)) by {
        if begun.visited.contains(next) {
            let i = choose|i: int| 0 <= i < begun.visited.len() && begun.visited[i] == next;
            assert(begun.visited[i] == seed);
        }
    }
}

/// More pages are owed exactly where a budget ran out: a step makes the
/// traversal owe pages only if the time is spent or the page budget is
/// reached when the budgets are checked, or if the time runs out while a
/// page is searched. Finding no further page, or a page already visited,
/// never does; neither does a failure.
pub proof fn lemma_more_pages_owed_only_for_budget(
    t: TraversalView,
    expired: bool,
    title: Option<Seq<char>>,
    matches: Seq<KeywordMatchView>,
    timed_out: bool,
    next: Option<Seq<char>>,
    reason: Seq<char>,
)
    ensures
        t.polled(expired).has_more_pages == (t.has_more_pages || (!t.finished() && (expired
            || t.pages_crawled >= t.budget.max_pages))),
        t.with_page(title, matches, timed_out, next).has_more_pages == (t.has_more_pages || (
        t.awaits_page() && timed_out)),
        t.with_failure(reason).has_more_pages == t.has_more_pages,
{
}

/// The result of a traversal that failed holds the reason and nothing
/// else; the result of one that did not fail holds no reason.
pub proof fn lemma_failure_gives_the_reason_only(
    t: TraversalView,
    crawl_time: Seq<char>,
    elapsed_ms: u64,
)
    requires
        t.wf(),
    ensures
        t.phase == Phase::Failed ==> t.outcome(crawl_time, elapsed_ms) == failed_domain(
            t.seed,
            t.failure->0,
        ),
        t.phase == Phase::Failed ==> {
            let result = t.outcome(crawl_time, elapsed_ms);
            &&& result.error is Some
            &&& result.pages_crawled == 0
            &&& result.matches.len() == 0
            &&& result.title is None
            &&& result.metadata is None
            &&& !result.has_more_pages
        },
        t.phase != Phase::Failed ==> t.outcome(crawl_time, elapsed_ms).error is None,
{
}

/// A consumer never keeps more pages than its budget allows, and owes more
/// pages only once the budget is spent.
pub proof fn lemma_consumer_within_budget(
    d: DiscoveryView,
    record: Result<CrawlResultView, Seq<char>>,
    found: Result<Seq<KeywordMatchView>, Seq<char>>,
    crawl_time: Seq<char>,
    elapsed_ms: u64,
)
    requires
        d.wf(),
    ensures
        d.with_page(record, found).wf(),
        d.outcome(crawl_time, elapsed_ms).pages_crawled <= d.max_pages,
        d.outcome(crawl_time, elapsed_ms).has_more_pages ==> d.outcome(
            crawl_time,
            elapsed_ms,
        ).pages_crawled == d.max_pages,
        DiscoveryView::start(d.base_url, d.keywords, d.max_pages).wf(),
{
}

/// The outcome of one seed touches the result of no other seed: what the
/// run held before, it holds after, and the run is one result longer.
pub proof fn lemma_seeds_are_isolated(run: CrawlRunView, outcome: Result<SeedCrawlView, Seq<char>>)
    requires
        run.wf(),
        !run.complete(),
    ensures
        run.recorded(outcome).wf(),
        run.recorded(outcome).seeds == run.seeds,
        run.recorded(outcome).domains.len() == run.domains.len() + 1,
        run.recorded(outcome).domains.take(run.domains.len() as int) == run.domains,
        run.recorded(outcome).domains.last().url == run.seeds[run.domains.len() as int],
        outcome matches Err(why) ==> run.recorded(outcome).domains.last() == failed_domain(
            run.seeds[run.domains.len() as int],
            why,
        ),
{
    assert(run.recorded(outcome).domains.take(run.domains.len() as int) =~= run.domains);
}

} // verus!
