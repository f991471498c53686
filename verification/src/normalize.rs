//! The URL normaliser: from what a client typed to the seed URLs of a crawl.

use vstd::prelude::*;
use vstd::string::StringExecFns;
use crate::bindings::{parse_url, url_parse};
use crate::error::CrawlerError;
use crate::links::{is_web, is_web_url, rows};
use crate::text::{append, texts, to_chars, to_text, trim, trimmed};

verus! {

/// The scheme given to a seed that names none.
pub const DEFAULT_SCHEME: &'static str = "https://";

/// `raw` without its backticks.
pub open spec fn without_backticks(raw: Seq<char>) -> Seq<char> {
    raw.filter(|c: char| c != '`')
}

/// The pieces of `s` between the occurrences of `separator`: one more than
/// there are separators, empty pieces included.
pub open spec fn split_on(s: Seq<char>, separator: char) -> Seq<Seq<char>>
    decreases s.len(),
{
    if s.len() == 0 {
        seq![Seq::empty()]
    } else {
        let before = split_on(s.drop_last(), separator);
        if s.last() == separator {
            before.push(Seq::empty())
        } else {
            before.drop_last().push(before.last().push(s.last()))
        }
    }
}

/// `segment` with the default scheme before it, unless it names HTTP or
/// HTTPS itself.
pub open spec fn with_scheme(segment: Seq<char>) -> Seq<char> {
    if is_web_url(segment) {
        segment
    } else {
        DEFAULT_SCHEME@ + segment
    }
}

/// The URL that a segment of the input stands for: the segment without
/// surrounding white space, with a scheme; `None` for a blank segment.
pub open spec fn candidate_of(segment: Seq<char>) -> Option<Seq<char>> {
    let name = trimmed(segment);
    if name.len() == 0 {
        None
    } else {
        Some(with_scheme(name))
    }
}

/// The URLs that the input stands for, in order, before any is parsed.
pub open spec fn candidates_of(raw: Seq<char>) -> Seq<Seq<char>> {
    split_on(without_backticks(raw), ',').filter_map(|s: Seq<char>| candidate_of(s))
}

/// Of `candidates`, those that parse as absolute URLs, each as the parser
/// writes it, in order.
pub open spec fn parsed_of(candidates: Seq<Seq<char>>) -> Seq<Seq<char>> {
    candidates.filter_map(|c: Seq<char>| url_parse(c))
}

/// The seed URLs that the input gives.
pub open spec fn seeds_of(raw: Seq<char>) -> Seq<Seq<char>> {
    parsed_of(candidates_of(raw))
}

/// Of `candidates`, those that do not parse as absolute URLs, as they
/// stand, in order.
pub open spec fn rejected_of(candidates: Seq<Seq<char>>) -> Seq<Seq<char>> {
    candidates.filter_map(
        |c: Seq<char>|
            if url_parse(c) is None {
                Some(c)
            } else {
                None
            },
    )
}

/// The pieces of the input that are dropped because they do not parse.
pub open spec fn dropped_of(raw: Seq<char>) -> Seq<Seq<char>> {
    rejected_of(candidates_of(raw))
}

/// Every candidate either gives a seed or is dropped, never both.
pub proof fn lemma_kept_or_dropped(candidates: Seq<Seq<char>>)
    ensures
        parsed_of(candidates).len() + rejected_of(candidates).len() == candidates.len(),
    decreases candidates.len(),
{
    if candidates.len() > 0 {
        lemma_kept_or_dropped(candidates.drop_last());
    }
}

/// Drops the backticks of `raw`.
pub fn strip_backticks(raw: &Vec<char>) -> (out: Vec<char>)
    ensures
        out@ == without_backticks(raw@),
{
    let mut out: Vec<char> = Vec::new();
    let mut i: usize = 0;
    proof {
        reveal(Seq::filter);
    }
    assert(raw@.take(0) =~= Seq::<char>::empty());
    while i < raw.len()
        invariant
            i <= raw.len(),
            out@ == without_backticks(raw@.take(i as int)),
        decreases raw.len() - i,
    {
        proof {
            reveal(Seq::filter);
        }
        assert(raw@.take(i + 1).drop_last() =~= raw@.take(i as int));
        let c = raw[i];
        if c != '`' {
            out.push(c);
        }
        i += 1;
    }
    assert(raw@.take(raw.len() as int) == raw@);
    out
}

/// Cuts `s` at every occurrence of `separator`.
pub fn split(s: &Vec<char>, separator: char) -> (parts: Vec<Vec<char>>)
    ensures
        rows(parts@) == split_on(s@, separator),
{
    let mut parts: Vec<Vec<char>> = Vec::new();
    let mut piece: Vec<char> = Vec::new();
    let mut i: usize = 0;
    assert(s@.take(0) =~= Seq::<char>::empty());
    assert(rows(parts@).push(piece@) =~= seq![Seq::<char>::empty()]);
    while i < s.len()
        invariant
            i <= s.len(),
            rows(parts@).push(piece@) == split_on(s@.take(i as int), separator),
        decreases s.len() - i,
    {
        let ghost done = rows(parts@);
        let ghost open = piece@;
        assert(s@.take(i + 1).drop_last() =~= s@.take(i as int));
        assert(done.push(open).drop_last() =~= done);
        let c = s[i];
        if c == separator {
            parts.push(piece);
            piece = Vec::new();
            assert(rows(parts@) =~= done.push(open));
        } else {
            piece.push(c);
        }
        i += 1;
    }
    assert(s@.take(s.len() as int) == s@);
    let ghost done = rows(parts@);
    parts.push(piece);
    assert(rows(parts@) =~= done.push(piece@));
    parts
}

/// Turns a segment of the input into the URL it stands for.
pub fn candidate(segment: &Vec<char>) -> (url: Option<Vec<char>>)
    ensures
        match url {
            Some(u) => candidate_of(segment@) == Some(u@),
            None => candidate_of(segment@) is None,
        },
{
    let name = trim(segment);
    if name.len() == 0 {
        None
    } else if is_web(&name) {
        Some(name)
    } else {
        let mut url = to_chars(DEFAULT_SCHEME);
        append(&mut url, &name);
        Some(url)
    }
}

/// The URLs that the input stands for, before any is parsed: the input
/// without backticks, cut at the commas, each piece without surrounding white
/// space, blank pieces dropped, and `https://` put before a piece that
/// names neither HTTP nor HTTPS.
pub fn seed_candidates(raw: &str) -> (candidates: Vec<String>)
    ensures
        texts(candidates@) == candidates_of(raw@),
{
    let segments = split(&strip_backticks(&to_chars(raw)), ',');
    let ghost all = rows(segments@);
    let mut candidates: Vec<String> = Vec::new();
    let mut i: usize = 0;
    assert(all.take(0).filter_map(|s: Seq<char>| candidate_of(s)) =~= Seq::<Seq<char>>::empty());
    assert(texts(candidates@) =~= Seq::<Seq<char>>::empty());
    while i < segments.len()
        invariant
            i <= segments.len(),
            all == rows(segments@),
            texts(candidates@) == all.take(i as int).filter_map(|s: Seq<char>| candidate_of(s)),
        decreases segments.len() - i,
    {
        let ghost kept = candidates@;
        assert(all.take(i + 1).drop_last() =~= all.take(i as int));
        assert(all.take(i + 1).last() == segments@[i as int]@);
        match candidate(&segments[i]) {
            Some(url) => {
                let text = to_text(&url);
                candidates.push(text);
                assert(texts(candidates@) =~= texts(kept) + seq![url@]);
            },
            None => {},
        }
        i += 1;
    }
    assert(all.take(segments.len() as int) == all);
    candidates
}

/// Parses each candidate and keeps those that are absolute URLs, each as
/// the parser writes it.
pub fn parse_candidates(candidates: &Vec<String>) -> (urls: Vec<String>)
    ensures
        texts(urls@) == parsed_of(texts(candidates@)),
{
    let ghost all = texts(candidates@);
    let mut urls: Vec<String> = Vec::new();
    let mut i: usize = 0;
    assert(all.take(0).filter_map(|c: Seq<char>| url_parse(c)) =~= Seq::<Seq<char>>::empty());
    assert(texts(urls@) =~= Seq::<Seq<char>>::empty());
    while i < candidates.len()
        invariant
            i <= candidates.len(),
            all == texts(candidates@),
            texts(urls@) == parsed_of(all.take(i as int)),
        decreases candidates.len() - i,
    {
        let ghost kept = urls@;
        assert(all.take(i + 1).drop_last() =~= all.take(i as int));
        assert(all.take(i + 1).last() == candidates@[i as int]@);
        match parse_url(candidates[i].as_str()) {
            Ok(url) => {
                urls.push(url);
                assert(texts(urls@) =~= texts(kept) + seq![url@]);
            },
            Err(_) => {},
        }
        i += 1;
    }
    assert(all.take(candidates.len() as int) == all);
    urls
}

/// Of the candidates, those that do not parse as absolute URLs, as they
/// stand.
pub fn rejected_candidates(candidates: &Vec<String>) -> (rejected: Vec<String>)
    ensures
        texts(rejected@) == rejected_of(texts(candidates@)),
{
    let ghost all = texts(candidates@);
    let mut rejected: Vec<String> = Vec::new();
    let mut i: usize = 0;
    assert(rejected_of(all.take(0)) =~= Seq::<Seq<char>>::empty());
    assert(texts(rejected@) =~= Seq::<Seq<char>>::empty());
    while i < candidates.len()
        invariant
            i <= candidates.len(),
            all == texts(candidates@),
            texts(rejected@) == rejected_of(all.take(i as int)),
        decreases candidates.len() - i,
    {
        let ghost kept = rejected@;
        assert(all.take(i + 1).drop_last() =~= all.take(i as int));
        assert(all.take(i + 1).last() == candidates@[i as int]@);
        match parse_url(candidates[i].as_str()) {
            Ok(_) => {},
            Err(_) => {
                let piece = candidates[i].clone();
                rejected.push(piece);
                assert(texts(rejected@) =~= texts(kept) + seq![piece@]);
            },
        }
        i += 1;
    }
    assert(all.take(candidates.len() as int) == all);
    rejected
}

/// The pieces of the input that are dropped because they do not parse as
/// absolute URLs, each as it was tried: for the one who reads the input to
/// warn of.
pub fn dropped_segments(raw: &str) -> (dropped: Vec<String>)
    ensures
        texts(dropped@) == dropped_of(raw@),
{
    rejected_candidates(&seed_candidates(raw))
}

/// The seed URLs that the input gives: of the URLs it stands for, those
/// that parse, in order. A piece that does not parse is dropped; the input
/// is refused only where nothing is left.
pub fn normalize_urls(raw: &str) -> (res: Result<Vec<String>, CrawlerError>)
    ensures
        match res {
            Ok(urls) => texts(urls@) == seeds_of(raw@) && urls.len() > 0,
            Err(e) => seeds_of(raw@).len() == 0 && e is UrlError,
        },
{
    let urls = parse_candidates(&seed_candidates(raw));
    if urls.len() == 0 {
        Err(CrawlerError::UrlError(String::from_str("no valid URL in the input")))
    } else {
        Ok(urls)
    }
}

} // verus!
