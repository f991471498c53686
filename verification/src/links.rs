//! The link resolver: the links that leave a page, and the link to the page
//! that follows it.

use vstd::prelude::*;
use crate::bindings::{
    all_captures, first_capture, join_url, regex_captures, regex_captures_iter, regex_compiles,
    regex_error_text, url_join,
};
use crate::error::CrawlerError;
use crate::text::{
    has_prefix, lemma_lex_less_transitive, lemma_strictly_sorted_no_duplicates, lex_less, optional_texts, order, starts_with,
    strictly_sorted, text_of, texts, to_chars, to_text, Order,
};

verus! {

/// Matches an anchor and captures the target of its `href`.
pub const LINK_PATTERN: &'static str = "<a[^>]+href\\s*=\\s*[\"']([^\"']+)[\"'][^>]*>";

/// Whether a link target addresses something other than a page: mail, a
/// telephone number, a script.
pub open spec fn is_skipped(href: Seq<char>) -> bool {
    ||| has_prefix(href, "mailto:"@)
    ||| has_prefix(href, "tel:"@)
    ||| has_prefix(href, "javascript:"@)
}

/// Whether an absolute URL is served over HTTP or HTTPS.
pub open spec fn is_web_url(url: Seq<char>) -> bool {
    has_prefix(url, "http://"@) || has_prefix(url, "https://"@)
}

/// Tells whether an absolute URL is served over HTTP or HTTPS.
pub fn is_web(url: &Vec<char>) -> (b: bool)
    ensures
        b == is_web_url(url@),
{
    starts_with(url, &to_chars("http://")) || starts_with(url, &to_chars("https://"))
}

/// The link that a captured target gives on a page at `base`: the target
/// resolved against `base`, where it is a page served over HTTP or HTTPS.
pub open spec fn link_of(base: Seq<char>, href: Option<Seq<char>>) -> Option<Seq<char>> {
    match href {
        Some(h) => if is_skipped(h) {
            None
        } else {
            match url_join(base, h) {
                Some(u) => if is_web_url(u) {
                    Some(u)
                } else {
                    None
                },
                None => None,
            }
        },
        None => None,
    }
}

/// The links that the captured targets give, in the order of the targets.
pub open spec fn links_of(base: Seq<char>, hrefs: Seq<Option<Seq<char>>>) -> Seq<Seq<char>> {
    hrefs.filter_map(|h: Option<Seq<char>>| link_of(base, h))
}

/// Resolves a captured link target against the address of its page.
pub fn resolve_link(base: &str, href: &Option<String>) -> (link: Option<Vec<char>>)
    ensures
        match link {
            Some(u) => link_of(base@, text_of(*href)) == Some(u@),
            None => link_of(base@, text_of(*href)) is None,
        },
{
    match href {
        Some(h) => {
            let target = to_chars(h.as_str());
            if starts_with(&target, &to_chars("mailto:")) || starts_with(&target, &to_chars("tel:"))
                || starts_with(&target, &to_chars("javascript:")) {
                return None;
            }
            match join_url(base, h.as_str()) {
                Ok(u) => {
                    let url = to_chars(u.as_str());
                    if is_web(&url) {
                        Some(url)
                    } else {
                        None
                    }
                },
                Err(_) => None,
            }
        },
        None => None,
    }
}

/// The contents of a sequence of character vectors.
pub open spec fn rows(v: Seq<Vec<char>>) -> Seq<Seq<char>> {
    v.map_values(|r: Vec<char>| r@)
}

/// Puts `item` into the sorted list at its place, unless the list holds it
/// already.
pub fn insert_sorted(list: &mut Vec<Vec<char>>, item: Vec<char>)
    requires
        strictly_sorted(rows(old(list)@)),
    ensures
        strictly_sorted(rows(final(list)@)),
        forall|u: Seq<char>|
            rows(final(list)@).contains(u) <==> rows(old(list)@).contains(u) || u == item@,
{
    let ghost before = rows(list@);
    let mut i: usize = 0;
    while i < list.len()
        invariant
            i <= list.len(),
            rows(list@) == before,
            list@ == old(list)@,
            strictly_sorted(before),
            forall|j: int| 0 <= j < i ==> lex_less(#[trigger] before[j], item@),
        ensures
            i < before.len() ==> lex_less(item@, before[i as int]),
        decreases list.len() - i,
    {
        match order(&list[i], &item) {
            Order::Before => {
                assert(rows(list@)[i as int] == list@[i as int]@);
                i += 1;
            },
            Order::Same => {
                assert(rows(list@)[i as int] == item@);
                assert(before.contains(item@));
                return ;
            },
            Order::After => {
                assert(rows(list@)[i as int] == list@[i as int]@);
                break ;
            },
        }
    }
    let ghost x = item@;
    assert(i < before.len() ==> lex_less(x, before[i as int]));
    list.insert(i, item);
    proof {
        let after = rows(list@);
        assert(after.len() == before.len() + 1);
        assert forall|j: int| 0 <= j < after.len() implies after[j] == (if j < i {
            before[j]
        } else if j == i {
            x
        } else {
            before[j - 1]
        }) by {
            assert(after[j] == list@[j]@);
            if j < i {
                assert(before[j] == old(list)@[j]@);
            } else if j > i {
                assert(before[j - 1] == old(list)@[j - 1]@);
            }
        }
        assert forall|a: int, b: int| 0 <= a < b < after.len() implies lex_less(
            #[trigger] after[a],
            #[trigger] after[b],
        ) by {
            if b < i {
                assert(lex_less(before[a], before[b]));
            } else if b == i {
                assert(lex_less(before[a], x));
            } else if a < i {
                assert(lex_less(before[a], before[b - 1]));
            } else if a == i {
                if b - 1 > i {
                    assert(lex_less(before[i as int], before[b - 1]));
                    lemma_lex_less_transitive(x, before[i as int], before[b - 1]);
                }
            } else {
                assert(lex_less(before[a - 1], before[b - 1]));
            }
        }
        assert forall|u: Seq<char>| after.contains(u) <==> before.contains(u) || u == x by {
            if after.contains(u) {
                let j = choose|j: int| 0 <= j < after.len() && after[j] == u;
                if j < i {
                    assert(before[j] == u);
                } else if j > i {
                    assert(before[j - 1] == u);
                }
            }
            if before.contains(u) {
                let j = choose|j: int| 0 <= j < before.len() && before[j] == u;
                if j < i {
                    assert(after[j] == u);
                } else {
                    assert(after[j + 1] == u);
                }
            }
            if u == x {
                assert(after[i as int] == u);
            }
        }
    }
}

/// Sorts the links and keeps each once.
pub fn sort_links(found: Vec<Vec<char>>) -> (links: Vec<String>)
    ensures
        strictly_sorted(texts(links@)),
        forall|u: Seq<char>| texts(links@).contains(u) <==> rows(found@).contains(u),
{
    let mut sorted: Vec<Vec<char>> = Vec::new();
    let mut found = found;
    let ghost all = rows(found@);
    assert(rows(sorted@) =~= Seq::<Seq<char>>::empty());
    while found.len() > 0
        invariant
            strictly_sorted(rows(sorted@)),
            forall|u: Seq<char>|
                all.contains(u) <==> rows(sorted@).contains(u) || rows(found@).contains(u),
        decreases found.len(),
    {
        let ghost rest = rows(found@);
        let item = found.pop().unwrap();
        proof {
            let now = rows(found@);
            assert(now =~= rest.drop_last());
            assert(rest.last() == item@);
            assert forall|u: Seq<char>| rest.contains(u) <==> now.contains(u) || u == item@ by {
                if rest.contains(u) {
                    let j = choose|j: int| 0 <= j < rest.len() && rest[j] == u;
                    if j < now.len() {
                        assert(now[j] == u);
                    }
                }
                if now.contains(u) {
                    let j = choose|j: int| 0 <= j < now.len() && now[j] == u;
                    assert(rest[j] == u);
                }
                if u == item@ {
                    assert(rest[rest.len() - 1] == u);
                }
            }
        }
        insert_sorted(&mut sorted, item);
    }
    let mut links: Vec<String> = Vec::new();
    let mut k: usize = 0;
    while k < sorted.len()
        invariant
            k <= sorted.len(),
            texts(links@) == rows(sorted@).take(k as int),
        decreases sorted.len() - k,
    {
        let ghost done = links@;
        let link = to_text(&sorted[k]);
        links.push(link);
        assert(texts(links@) =~= texts(done).push(link@));
        assert(rows(sorted@)[k as int] == sorted@[k as int]@);
        k += 1;
        assert(texts(links@) =~= rows(sorted@).take(k as int));
    }
    assert(rows(sorted@).take(sorted.len() as int) == rows(sorted@));
    assert forall|u: Seq<char>| texts(links@).contains(u) <==> all.contains(u) by {
        assert(!rows(found@).contains(u));
    }
    links
}

/// Resolves each captured link target against the address of the page and
/// keeps the links to pages, in order.
pub fn resolve_links(base: &str, hrefs: &Vec<Option<String>>) -> (found: Vec<Vec<char>>)
    ensures
        rows(found@) == links_of(base@, optional_texts(hrefs@)),
{
    let mut found: Vec<Vec<char>> = Vec::new();
    let mut i: usize = 0;
    assert(optional_texts(hrefs@).take(0) =~= Seq::<Option<Seq<char>>>::empty());
    assert(rows(found@) =~= Seq::<Seq<char>>::empty());
    while i < hrefs.len()
        invariant
            i <= hrefs.len(),
            rows(found@) == links_of(base@, optional_texts(hrefs@).take(i as int)),
        decreases hrefs.len() - i,
    {
        let ghost done = optional_texts(hrefs@).take(i as int);
        let ghost next = optional_texts(hrefs@).take(i + 1);
        let ghost kept = found@;
        assert(next.drop_last() =~= done);
        assert(next.last() == text_of(hrefs@[i as int]));
        match resolve_link(base, &hrefs[i]) {
            Some(link) => {
                found.push(link);
                assert(rows(found@) =~= rows(kept) + seq![link@]);
            },
            None => {},
        }
        i += 1;
    }
    assert(optional_texts(hrefs@).take(hrefs.len() as int) == optional_texts(hrefs@));
    found
}

/// The links that leave a page at `base_url`: the target of every anchor,
/// but for mail, telephone and script targets, resolved against `base_url`;
/// of those, the ones served over HTTP or HTTPS, sorted, each once. Fails
/// exactly where the link pattern is malformed.
pub fn extract_links(html: &str, base_url: &str) -> (res: Result<Vec<String>, CrawlerError>)
    ensures
        res is Ok <==> regex_compiles(LINK_PATTERN@),
        res matches Ok(links) ==> {
            &&& strictly_sorted(texts(links@))
            &&& texts(links@).no_duplicates()
            &&& forall|u: Seq<char>|
                texts(links@).contains(u) <==> links_of(
                    base_url@,
                    regex_captures_iter(LINK_PATTERN@, html@),
                ).contains(u)
        },
        res matches Err(e) ==> e is SelectorError,
{
    match all_captures(LINK_PATTERN, html) {
        Ok(hrefs) => {
            let links = sort_links(resolve_links(base_url, &hrefs));
            proof {
                lemma_strictly_sorted_no_duplicates(texts(links@));
            }
            Ok(links)
        },
        Err(e) => Err(CrawlerError::SelectorError(regex_error_text(&e))),
    }
}

/// Matches a link marked `rel="next"`, the mark before the target.
pub const NEXT_REL_PATTERN: &'static str =
    "<(?:a|link)\\b[^>]*\\brel\\s*=\\s*[\"']next[\"'][^>]*\\bhref\\s*=\\s*[\"']([^\"']+)[\"']";

/// Matches a link marked `rel="next"`, the target before the mark.
pub const NEXT_REL_AFTER_PATTERN: &'static str =
    "<(?:a|link)\\b[^>]*\\bhref\\s*=\\s*[\"']([^\"']+)[\"'][^>]*\\brel\\s*=\\s*[\"']next[\"']";

/// Matches an anchor of class `next` or `pagination-next`, the class before
/// the target.
pub const NEXT_CLASS_PATTERN: &'static str =
    "<a\\b[^>]*\\bclass\\s*=\\s*[\"'](?:[^\"']*\\s)?(?:pagination-)?next(?:\\s[^\"']*)?[\"'][^>]*\\bhref\\s*=\\s*[\"']([^\"']+)[\"']";

/// Matches an anchor of class `next` or `pagination-next`, the target before
/// the class.
pub const NEXT_CLASS_AFTER_PATTERN: &'static str =
    "<a\\b[^>]*\\bhref\\s*=\\s*[\"']([^\"']+)[\"'][^>]*\\bclass\\s*=\\s*[\"'](?:[^\"']*\\s)?(?:pagination-)?next(?:\\s[^\"']*)?[\"']";

/// Matches an anchor whose text holds `Next` or a closing guillemet.
pub const NEXT_TEXT_PATTERN: &'static str =
    "<a\\b[^>]*\\bhref\\s*=\\s*[\"']([^\"']+)[\"'][^>]*>[^<]*(?:Next|\u{bb})[^<]*</a>";

/// The patterns that find the link to the next page, the most telling first.
pub open spec fn pagination_patterns() -> Seq<Seq<char>> {
    seq![
        NEXT_REL_PATTERN@,
        NEXT_REL_AFTER_PATTERN@,
        NEXT_CLASS_PATTERN@,
        NEXT_CLASS_AFTER_PATTERN@,
        NEXT_TEXT_PATTERN@,
    ]
}

/// What trying the patterns in order gives on `html`: the target that the
/// first matching pattern captures, `Ok(None)` where none matches, and
/// `Err` where a malformed pattern stands before the first match.
pub open spec fn first_target(patterns: Seq<Seq<char>>, html: Seq<char>) -> Result<
    Option<Seq<char>>,
    (),
>
    decreases patterns.len(),
{
    if patterns.len() == 0 {
        Ok(None)
    } else if !regex_compiles(patterns.first()) {
        Err(())
    } else {
        match regex_captures(patterns.first(), html) {
            Some(Some(target)) => Ok(Some(target)),
            _ => first_target(patterns.drop_first(), html),
        }
    }
}

/// The next page that a target gives on a page at `current`: the target
/// resolved against `current`, where it can be.
pub open spec fn next_page_of(current: Seq<char>, target: Option<Seq<char>>) -> Option<
    Seq<char>,
> {
    match target {
        Some(t) => url_join(current, t),
        None => None,
    }
}

/// Resolves the target of a "next page" link against the address of the
/// page that holds it.
pub fn resolve_next(current_url: &str, target: Option<String>) -> (next: Option<String>)
    ensures
        text_of(next) == next_page_of(current_url@, text_of(target)),
{
    match target {
        Some(t) => match join_url(current_url, t.as_str()) {
            Ok(u) => Some(u),
            Err(_) => None,
        },
        None => None,
    }
}

/// The target of the link to the next page: what the first of the
/// pagination patterns that matches `html` captures. Fails exactly where a
/// malformed pattern stands before the first match.
pub fn find_next_target(html: &str) -> (res: Result<Option<String>, CrawlerError>)
    ensures
        match res {
            Ok(target) => first_target(pagination_patterns(), html@) == Ok::<
                Option<Seq<char>>,
                (),
            >(text_of(target)),
            Err(e) => first_target(pagination_patterns(), html@) is Err && e is SelectorError,
        },
{
    let patterns: [&'static str; 5] = [
        NEXT_REL_PATTERN,
        NEXT_REL_AFTER_PATTERN,
        NEXT_CLASS_PATTERN,
        NEXT_CLASS_AFTER_PATTERN,
        NEXT_TEXT_PATTERN,
    ];
    let ghost all = pagination_patterns();
    let mut i: usize = 0;
    assert(all.skip(0) =~= all);
    while i < 5
        invariant
            i <= 5,
            all == pagination_patterns(),
            forall|j: int| 0 <= j < 5 ==> patterns[j]@ == all[j],
            first_target(all, html@) == first_target(all.skip(i as int), html@),
        decreases 5 - i,
    {
        let ghost rest = all.skip(i as int);
        assert(rest.first() == all[i as int]);
        assert(rest.drop_first() =~= all.skip(i + 1));
        match first_capture(patterns[i], html) {
            Ok(Some(Some(target))) => {
                return Ok(Some(target));
            },
            Ok(_) => {},
            Err(e) => {
                return Err(CrawlerError::SelectorError(regex_error_text(&e)));
            },
        }
        i += 1;
    }
    Ok(None)
}

/// The page that follows a page at `current_url`: the target of its "next
/// page" link, resolved against `current_url`; `None` where the page has no
/// such link or the target cannot be resolved. Fails exactly where a
/// malformed pattern stands before the first match.
pub fn find_next_page(html: &str, current_url: &str) -> (res: Result<Option<String>, CrawlerError>)
    ensures
        match res {
            Ok(next) => match first_target(pagination_patterns(), html@) {
                Ok(target) => text_of(next) == next_page_of(current_url@, target),
                Err(_) => false,
            },
            Err(e) => first_target(pagination_patterns(), html@) is Err && e is SelectorError,
        },
{
    let target = find_next_target(html)?;
    Ok(resolve_next(current_url, target))
}

} // verus!
