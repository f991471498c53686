//! Keyword matching: where a keyword occurs on a page, the text around each
//! occurrence, and how relevant the match is.

use vstd::prelude::*;
use vstd::string::StringExecFns;
use crate::error::CrawlerError;
use crate::extract::{clean_text, cleaned_of, cleaning_patterns_compile};
use crate::clock::Deadline;
use crate::model::{match_views, KeywordMatch, KeywordMatchView, MAX_RELEVANCE};
use crate::text::{
    append, find_occurrences, lemma_occurrences_fit, lowered, occurrences, positions, slice,
    texts, to_chars, to_lowered, to_text,
};

verus! {

/// How many characters of the page are kept on each side of an occurrence.
pub const CONTEXT_RADIUS: usize = 50;

/// What stands between the contexts of two occurrences.
pub const CONTEXT_SEPARATOR: &'static str = " ... ";

/// Where the context of an occurrence at `at` begins.
pub open spec fn window_start(at: int) -> int {
    if at > CONTEXT_RADIUS {
        at - CONTEXT_RADIUS
    } else {
        0
    }
}

/// Where the context of an occurrence of `width` characters at `at` ends, in
/// a text of `len` characters.
pub open spec fn window_end(len: int, at: int, width: int) -> int {
    if at + width + CONTEXT_RADIUS < len {
        at + width + CONTEXT_RADIUS
    } else {
        len
    }
}

/// The context of an occurrence of `width` characters at `at`: the
/// occurrence with up to `CONTEXT_RADIUS` characters on either side.
pub open spec fn window(text: Seq<char>, at: int, width: int) -> Seq<char> {
    text.subrange(window_start(at), window_end(text.len() as int, at, width))
}

/// The contexts of the occurrences at `hits`, in order, with the separator
/// between each two.
pub open spec fn joined_windows(text: Seq<char>, hits: Seq<int>, width: int) -> Seq<char>
    decreases hits.len(),
{
    if hits.len() == 0 {
        Seq::empty()
    } else if hits.len() == 1 {
        window(text, hits[0], width)
    } else {
        joined_windows(text, hits.drop_last(), width) + CONTEXT_SEPARATOR@ + window(
            text,
            hits.last(),
            width,
        )
    }
}

/// Cuts the context of each occurrence out of `text` and joins them.
pub fn join_windows(text: &Vec<char>, hits: &Vec<usize>, width: usize) -> (out: Vec<char>)
    requires
        forall|i: int| 0 <= i < hits.len() ==> hits[i] + width <= text.len(),
    ensures
        out@ == joined_windows(text@, positions(hits@), width as int),
{
    let separator = to_chars(CONTEXT_SEPARATOR);
    let n = text.len();
    let mut out: Vec<char> = Vec::new();
    let mut i: usize = 0;
    while i < hits.len()
        invariant
            i <= hits.len(),
            n == text.len(),
            separator@ == CONTEXT_SEPARATOR@,
            forall|j: int| 0 <= j < hits.len() ==> hits[j] + width <= text.len(),
            out@ == joined_windows(text@, positions(hits@).take(i as int), width as int),
        decreases hits.len() - i,
    {
        let at = hits[i];
        let from = if at > CONTEXT_RADIUS {
            at - CONTEXT_RADIUS
        } else {
            0
        };
        let to = if n - at - width > CONTEXT_RADIUS {
            at + width + CONTEXT_RADIUS
        } else {
            n
        };
        if i > 0 {
            append(&mut out, &separator);
        }
        let piece = slice(text, from, to);
        append(&mut out, &piece);
        proof {
            let done = positions(hits@).take(i as int);
            let next = positions(hits@).take(i + 1);
            assert(next.drop_last() == done);
            assert(next.last() == at as int);
            assert(piece@ == window(text@, at as int, width as int));
        }
        i += 1;
    }
    assert(positions(hits@).take(hits.len() as int) == positions(hits@));
    out
}

/// The relevance of a keyword that occurs `count` times on a page, with a
/// joined context of `context_len` characters, in thousandths of a point:
/// seven points for each occurrence per hundred characters of context, three
/// more where the keyword stands early in the context, and never more than
/// a hundred points.
pub open spec fn relevance(count: nat, context_len: nat, early: bool) -> nat {
    if context_len == 0 {
        0
    } else {
        let bonus: nat = if early {
            3_000
        } else {
            0
        };
        let raw = (700_000 * count) / context_len + bonus;
        if raw < MAX_RELEVANCE {
            raw
        } else {
            MAX_RELEVANCE as nat
        }
    }
}

/// The relevance of a match is never more than a hundred points.
pub proof fn lemma_relevance_bounded(count: nat, context_len: nat, early: bool)
    ensures
        relevance(count, context_len, early) <= MAX_RELEVANCE,
{
}

/// Computes the relevance of a match.
pub fn score(count: usize, context_len: usize, early: bool) -> (r: u32)
    ensures
        r == relevance(count as nat, context_len as nat, early),
        r <= MAX_RELEVANCE,
{
    if context_len == 0 {
        return 0;
    }
    let scaled: u128 = 700_000u128 * (count as u128);
    let density: u128 = scaled / (context_len as u128);
    let bonus: u128 = if early {
        3_000
    } else {
        0
    };
    let raw: u128 = density + bonus;
    if raw < MAX_RELEVANCE as u128 {
        raw as u32
    } else {
        MAX_RELEVANCE
    }
}

/// The text of a page, kept together with its lower-case form so that
/// the page is folded once for all keywords.
#[derive(Debug)]
pub struct Page {
    chars: Vec<char>,
    folded: Vec<char>,
}

impl View for Page {
    type V = Seq<char>;

    closed spec fn view(&self) -> Seq<char> {
        self.chars@
    }
}

impl Page {
    #[verifier::type_invariant]
    spec fn folded_is_lower_case(self) -> bool {
        self.folded@ == lowered(self.chars@)
    }

    /// The page with the markup `html`.
    pub fn new(html: &str) -> (page: Page)
        ensures
            page@ == html@,
    {
        let chars = to_chars(html);
        let folded = to_lowered(&chars);
        Page { chars, folded }
    }
}

/// Where `keyword` occurs on `page`, letters compared without regard to
/// ASCII case.
pub open spec fn keyword_hits(page: Seq<char>, keyword: Seq<char>) -> Seq<int> {
    occurrences(lowered(page), lowered(keyword), 0)
}

/// The joined context of the occurrences of `keyword` on `page`.
pub open spec fn keyword_context(page: Seq<char>, keyword: Seq<char>) -> Seq<char> {
    joined_windows(page, keyword_hits(page, keyword), keyword.len() as int)
}

/// Whether `keyword` first occurs in the first third of `context`.
pub open spec fn occurs_early(context: Seq<char>, keyword: Seq<char>) -> bool {
    let hits = keyword_hits(context, keyword);
    hits.len() > 0 && hits[0] < context.len() / 3
}

/// The match of `keyword` on `page`, where it occurs at all.
pub open spec fn keyword_match_of(page: Seq<char>, keyword: Seq<char>) -> Option<
    KeywordMatchView,
> {
    let hits = keyword_hits(page, keyword);
    let context = keyword_context(page, keyword);
    if hits.len() == 0 {
        None
    } else {
        Some(
            KeywordMatchView {
                keyword,
                context,
                cleaned_text: cleaned_of(context),
                occurrences: hits.len(),
                relevance_score: relevance(
                    hits.len(),
                    context.len(),
                    occurs_early(context, keyword),
                ),
            },
        )
    }
}

/// Looks for `keyword` on `page`.
/// Gives the match where the keyword occurs, `None` where it does not.
/// Fails exactly where the keyword occurs and a pattern that strips markup
/// is malformed.
pub fn scan_keyword(page: &Page, keyword: &str) -> (res: Result<
    Option<KeywordMatch>,
    CrawlerError,
>)
    ensures
        res is Err <==> keyword_hits(page@, keyword@).len() > 0 && !cleaning_patterns_compile(),
        res matches Ok(found) ==> match found {
            Some(m) => keyword_match_of(page@, keyword@) == Some(m@),
            None => keyword_match_of(page@, keyword@) is None,
        },
        res matches Err(e) ==> e is SelectorError,
{
    proof {
        use_type_invariant(page);
    }
    let needle = to_lowered(&to_chars(keyword));
    let hits = find_occurrences(&page.folded, &needle);
    if hits.len() == 0 {
        return Ok(None);
    }
    proof {
        lemma_occurrences_fit(page.folded@, needle@, 0);
        assert forall|i: int| 0 <= i < hits.len() implies hits[i] + needle.len()
            <= page.chars.len() by {
            assert(positions(hits@)[i] == hits[i] as int);
        }
    }
    let context = join_windows(&page.chars, &hits, needle.len());
    let first = find_occurrences(&to_lowered(&context), &needle);
    let early = first.len() > 0 && first[0] < context.len() / 3;
    proof {
        if first.len() > 0 {
            assert(positions(first@)[0] == first[0] as int);
        }
    }
    let raw = to_text(&context);
    let cleaned_text = clean_text(raw.as_str())?;
    let relevance_score = score(hits.len(), context.len(), early);
    Ok(
        Some(
            KeywordMatch {
                keyword: String::from_str(keyword),
                context: raw,
                cleaned_text,
                occurrences: hits.len(),
                relevance_score,
            },
        ),
    )
}

/// What the match that stands for an abandoned scan says.
pub const TIMEOUT_NOTE: &'static str = "keyword scan abandoned: the time budget is spent";

/// The match that marks the keyword at which a scan was abandoned.
pub open spec fn timeout_marker(keyword: Seq<char>) -> KeywordMatchView {
    KeywordMatchView {
        keyword,
        context: TIMEOUT_NOTE@,
        cleaned_text: TIMEOUT_NOTE@,
        occurrences: 0,
        relevance_score: 0,
    }
}

/// The matches of `keywords` on `page`, in the order of the keywords.
pub open spec fn matches_of(page: Seq<char>, keywords: Seq<Seq<char>>) -> Seq<KeywordMatchView> {
    keywords.filter_map(|k: Seq<char>| keyword_match_of(page, k))
}

/// What a scan of `page` gives that got through the first `scanned`
/// keywords: their matches, and behind them the marker where the scan was
/// abandoned at the next keyword.
pub open spec fn scan_of(
    page: Seq<char>,
    keywords: Seq<Seq<char>>,
    scanned: int,
    timed_out: bool,
) -> Seq<KeywordMatchView> {
    let found = matches_of(page, keywords.take(scanned));
    if timed_out {
        found.push(timeout_marker(keywords[scanned]))
    } else {
        found
    }
}

/// The matches found on a page and whether the scan ran out of time.
#[derive(Debug, Clone, PartialEq, Eq)]
pub struct Extraction {
    /// The matches, in the order of the keywords; the last one is the
    /// marker where the scan ran out of time.
    pub matches: Vec<KeywordMatch>,
    /// Whether the scan was abandoned before the last keyword.
    pub timed_out: bool,
}

impl Extraction {
    /// Whether this is what a scan of `page` gives that got through the
    /// first `scanned` of `keywords`: through all of them, or abandoned at
    /// the next one.
    pub open spec fn is_scan_through(
        self,
        page: Seq<char>,
        keywords: Seq<Seq<char>>,
        scanned: int,
    ) -> bool {
        &&& 0 <= scanned <= keywords.len()
        &&& self.timed_out <==> scanned < keywords.len()
        &&& match_views(self.matches@) == scan_of(page, keywords, scanned, self.timed_out)
    }

    /// Whether this is what a scan of `page` for `keywords` can give.
    pub open spec fn is_scan_of(self, page: Seq<char>, keywords: Seq<Seq<char>>) -> bool {
        exists|scanned: int| self.is_scan_through(page, keywords, scanned)
    }
}

/// What `matches` become once the next keyword was looked at: with the
/// budget spent, the marker is added; else the match of the keyword, where
/// it occurs.
pub open spec fn after_keyword(
    matches: Seq<KeywordMatchView>,
    page: Seq<char>,
    keyword: Seq<char>,
    expired: bool,
) -> Seq<KeywordMatchView> {
    if expired {
        matches.push(timeout_marker(keyword))
    } else {
        match keyword_match_of(page, keyword) {
            Some(m) => matches.push(m),
            None => matches,
        }
    }
}

/// Looks at the next keyword of a scan. With the time budget spent the scan
/// is abandoned: the marker is added and `false` returned. Else the keyword
/// is looked for on the page, its match added where it occurs, and `true`
/// returned. Fails, leaving the matches as they were, exactly where the
/// budget is not spent, the keyword occurs and a pattern that strips markup
/// is malformed.
pub fn scan_step(
    matches: &mut Vec<KeywordMatch>,
    page: &Page,
    keyword: &str,
    expired: bool,
) -> (res: Result<bool, CrawlerError>)
    ensures
        res is Err <==> !expired && keyword_hits(page@, keyword@).len() > 0
            && !cleaning_patterns_compile(),
        res matches Ok(go_on) ==> go_on == !expired && match_views(final(matches)@)
            == after_keyword(match_views(old(matches)@), page@, keyword@, expired),
        res matches Err(e) ==> e is SelectorError && final(matches)@ == old(matches)@,
{
    let ghost before = matches@;
    if expired {
        let marker = KeywordMatch {
            keyword: String::from_str(keyword),
            context: String::from_str(TIMEOUT_NOTE),
            cleaned_text: String::from_str(TIMEOUT_NOTE),
            occurrences: 0,
            relevance_score: 0,
        };
        matches.push(marker);
        assert(match_views(matches@) =~= match_views(before).push(marker@));
        return Ok(false);
    }
    match scan_keyword(page, keyword)? {
        Some(m) => {
            matches.push(m);
            assert(match_views(matches@) =~= match_views(before).push(m@));
        },
        None => {},
    }
    Ok(true)
}

/// Scans a page for the keywords, in order, for as long as the time budget
/// lasts. The clock is read before each keyword; once the budget is spent,
/// the scan is abandoned with the marker behind what was found. So a budget
/// of nothing abandons the scan at the first keyword. Succeeds wherever the
/// patterns that strip markup are well formed.
pub fn extract_matches(html: &str, keywords: &Vec<String>, deadline: &Deadline) -> (res: Result<
    Extraction,
    CrawlerError,
>)
    ensures
        cleaning_patterns_compile() ==> res is Ok,
        res matches Ok(x) ==> x.is_scan_of(html@, texts(keywords@)),
        res matches Err(e) ==> e is SelectorError && !cleaning_patterns_compile(),
        keywords@.len() == 0 ==> res is Ok,
        deadline.limit() == 0 && keywords@.len() > 0 ==> res is Ok,
        res matches Ok(x) ==> deadline.limit() == 0 && keywords@.len() > 0 ==> x.timed_out
            && x.is_scan_through(html@, texts(keywords@), 0),
{
    let page = Page::new(html);
    let ghost all = texts(keywords@);
    let mut matches: Vec<KeywordMatch> = Vec::new();
    let mut i: usize = 0;
    assert(all.take(0) =~= Seq::<Seq<char>>::empty());
    assert(match_views(matches@) =~= Seq::<KeywordMatchView>::empty());
    while i < keywords.len()
        invariant
            i <= keywords.len(),
            all == texts(keywords@),
            page@ == html@,
            match_views(matches@) == matches_of(html@, all.take(i as int)),
            deadline.limit() == 0 ==> i == 0,
        decreases keywords.len() - i,
    {
        let ghost found = match_views(matches@);
        assert(all.take(i + 1).drop_last() =~= all.take(i as int));
        assert(all.take(i + 1).last() == keywords@[i as int]@);
        let expired = deadline.expired();
        let go_on = scan_step(&mut matches, &page, keywords[i].as_str(), expired)?;
        if !go_on {
            let x = Extraction { matches, timed_out: true };
            assert(match_views(x.matches@) == scan_of(html@, all, i as int, true));
            assert(x.is_scan_through(html@, all, i as int));
            return Ok(x);
        }
        assert(match_views(matches@) =~= matches_of(html@, all.take(i + 1)));
        i += 1;
    }
    assert(all.take(keywords.len() as int) == all);
    let x = Extraction { matches, timed_out: false };
    assert(match_views(x.matches@) == scan_of(html@, all, keywords.len() as int, false));
    assert(x.is_scan_through(html@, all, keywords.len() as int));
    Ok(x)
}

/// Whether one of `keywords` occurs on `page`.
pub open spec fn any_hit(page: Seq<char>, keywords: Seq<Seq<char>>) -> bool {
    exists|i: int| 0 <= i < keywords.len() && #[trigger] keyword_hits(page, keywords[i]).len() > 0
}

/// Scans a page for the keywords, in order, however long it takes. Fails
/// exactly where a keyword occurs and a pattern that strips markup is
/// malformed.
pub fn find_matches(html: &str, keywords: &Vec<String>) -> (res: Result<
    Vec<KeywordMatch>,
    CrawlerError,
>)
    ensures
        res is Err <==> any_hit(html@, texts(keywords@)) && !cleaning_patterns_compile(),
        res matches Ok(found) ==> match_views(found@) == matches_of(html@, texts(keywords@)),
        res matches Err(e) ==> e is SelectorError,
{
    let page = Page::new(html);
    let ghost all = texts(keywords@);
    let mut matches: Vec<KeywordMatch> = Vec::new();
    let mut i: usize = 0;
    assert(all.take(0) =~= Seq::<Seq<char>>::empty());
    assert(match_views(matches@) =~= Seq::<KeywordMatchView>::empty());
    while i < keywords.len()
        invariant
            i <= keywords.len(),
            all == texts(keywords@),
            page@ == html@,
            match_views(matches@) == matches_of(html@, all.take(i as int)),
            cleaning_patterns_compile() || forall|j: int|
                0 <= j < i ==> #[trigger] keyword_hits(html@, all[j]).len() == 0,
        decreases keywords.len() - i,
    {
        assert(all.take(i + 1).drop_last() =~= all.take(i as int));
        assert(all.take(i + 1).last() == keywords@[i as int]@);
        assert(all[i as int] == keywords@[i as int]@);
        match scan_step(&mut matches, &page, keywords[i].as_str(), false) {
            Ok(_) => {},
            Err(e) => {
                assert(keyword_hits(html@, all[i as int]).len() > 0);
                return Err(e);
            },
        }
        assert(match_views(matches@) =~= matches_of(html@, all.take(i + 1)));
        i += 1;
    }
    assert(all.take(keywords.len() as int) == all);
    Ok(matches)
}

} // verus!
