//! The content extractor: the title and the visible text of a page, and the
//! keywords found on it with their context and relevance.

use vstd::prelude::*;
use crate::bindings::{
    first_capture, regex_captures, regex_compiles, regex_error_text, regex_replace_all,
    replace_all,
};
use crate::error::CrawlerError;
use crate::text::{replace, replaced, text_of, to_chars, to_text, trim, trimmed};

verus! {

/// Matches a `title` element and captures its text.
pub const TITLE_PATTERN: &'static str = "<title[^>]*>([^<]*)</title>";

/// Matches a `script` element with what it holds.
pub const SCRIPT_PATTERN: &'static str = "<script[^>]*>.*?</script>";

/// Matches a `style` element with what it holds.
pub const STYLE_PATTERN: &'static str = "<style[^>]*>.*?</style>";

/// Matches one tag.
pub const TAG_PATTERN: &'static str = "<[^>]*>";

/// Matches a run of white space.
pub const WHITESPACE_PATTERN: &'static str = "\\s+";

/// `haystack` with every match of `pattern` replaced by `replacement`.
/// Fails exactly where the pattern is malformed.
pub fn substitute(pattern: &str, haystack: &str, replacement: &str) -> (res: Result<
    String,
    CrawlerError,
>)
    ensures
        res is Ok <==> regex_compiles(pattern@),
        res matches Ok(s) ==> s@ == regex_replace_all(pattern@, haystack@, replacement@),
        res matches Err(e) ==> e is SelectorError,
{
    match replace_all(pattern, haystack, replacement) {
        Ok(s) => Ok(s),
        Err(e) => Err(CrawlerError::SelectorError(regex_error_text(&e))),
    }
}

/// The title that a capture of the title pattern gives: the captured text
/// without surrounding white space, unless nothing is left of it.
pub open spec fn title_of(found: Option<Option<Seq<char>>>) -> Option<Seq<char>> {
    match found {
        Some(Some(t)) => if trimmed(t).len() > 0 {
            Some(trimmed(t))
        } else {
            None
        },
        _ => None,
    }
}

/// Turns what the title pattern captured into the title of the page.
pub fn title_from_capture(found: Option<Option<String>>) -> (title: Option<String>)
    ensures
        text_of(title) == title_of(
            match found {
                Some(g) => Some(text_of(g)),
                None => None,
            },
        ),
{
    match found {
        Some(Some(t)) => {
            let cut = trim(&to_chars(t.as_str()));
            if cut.len() > 0 {
                Some(to_text(&cut))
            } else {
                None
            }
        },
        _ => None,
    }
}

/// The title of a page: the text of its first `title` element, without
/// surrounding white space; `None` where there is no such element or it is
/// blank. Fails exactly where the title pattern is malformed.
pub fn extract_title(html: &str) -> (res: Result<Option<String>, CrawlerError>)
    ensures
        res is Ok <==> regex_compiles(TITLE_PATTERN@),
        res matches Ok(title) ==> text_of(title) == title_of(
            regex_captures(TITLE_PATTERN@, html@),
        ),
        res matches Err(e) ==> e is SelectorError,
{
    match first_capture(TITLE_PATTERN, html) {
        Ok(found) => Ok(title_from_capture(found)),
        Err(e) => Err(CrawlerError::SelectorError(regex_error_text(&e))),
    }
}

/// `html` without its `script` and `style` elements.
pub open spec fn without_code(html: Seq<char>) -> Seq<char> {
    regex_replace_all(STYLE_PATTERN@, regex_replace_all(SCRIPT_PATTERN@, html, ""@), ""@)
}

/// `markup` with a blank in place of each tag.
pub open spec fn without_tags(markup: Seq<char>) -> Seq<char> {
    regex_replace_all(TAG_PATTERN@, markup, " "@)
}

/// `s` with one blank in place of each run of white space, and none at
/// either end.
pub open spec fn squeezed(s: Seq<char>) -> Seq<char> {
    trimmed(regex_replace_all(WHITESPACE_PATTERN@, s, " "@))
}

/// `s` with the common character entities decoded; the ampersand last, so
/// that nothing is decoded twice.
pub open spec fn decoded(s: Seq<char>) -> Seq<char> {
    let s1 = replaced(s, "&nbsp;"@, " "@);
    let s2 = replaced(s1, "&lt;"@, "<"@);
    let s3 = replaced(s2, "&gt;"@, ">"@);
    let s4 = replaced(s3, "&quot;"@, "\""@);
    let s5 = replaced(s4, "&#39;"@, "'"@);
    replaced(s5, "&amp;"@, "&"@)
}

/// Decodes the common character entities.
pub fn decode_entities(s: &Vec<char>) -> (out: Vec<char>)
    ensures
        out@ == decoded(s@),
{
    let s1 = replace(s, &to_chars("&nbsp;"), &to_chars(" "));
    let s2 = replace(&s1, &to_chars("&lt;"), &to_chars("<"));
    let s3 = replace(&s2, &to_chars("&gt;"), &to_chars(">"));
    let s4 = replace(&s3, &to_chars("&quot;"), &to_chars("\""));
    let s5 = replace(&s4, &to_chars("&#39;"), &to_chars("'"));
    replace(&s5, &to_chars("&amp;"), &to_chars("&"))
}

/// `raw` as a reader sees it: tags replaced by blanks, entities decoded,
/// white space collapsed.
pub open spec fn cleaned_of(raw: Seq<char>) -> Seq<char> {
    squeezed(decoded(without_tags(raw)))
}

/// The visible text of a page: the markup without `script` and `style`
/// elements, as a reader sees it.
pub open spec fn content_of(html: Seq<char>) -> Seq<char> {
    cleaned_of(without_code(html))
}

/// Whether the patterns that strip markup are well formed.
pub open spec fn cleaning_patterns_compile() -> bool {
    regex_compiles(TAG_PATTERN@) && regex_compiles(WHITESPACE_PATTERN@)
}

/// Whether the patterns that `extract_content` applies are well formed.
pub open spec fn content_patterns_compile() -> bool {
    &&& regex_compiles(SCRIPT_PATTERN@)
    &&& regex_compiles(STYLE_PATTERN@)
    &&& cleaning_patterns_compile()
}

/// Puts one blank in place of each run of white space and drops the white
/// space at either end. Fails exactly where the white-space pattern is
/// malformed.
pub fn squeeze(s: &str) -> (res: Result<String, CrawlerError>)
    ensures
        res is Ok <==> regex_compiles(WHITESPACE_PATTERN@),
        res matches Ok(out) ==> out@ == squeezed(s@),
        res matches Err(e) ==> e is SelectorError,
{
    let collapsed = substitute(WHITESPACE_PATTERN, s, " ")?;
    Ok(to_text(&trim(&to_chars(collapsed.as_str()))))
}

/// Strips the tags of `raw`, decodes its entities and collapses its white
/// space. Fails exactly where one of the patterns that strip markup is
/// malformed.
pub fn clean_text(raw: &str) -> (res: Result<String, CrawlerError>)
    ensures
        res is Ok <==> cleaning_patterns_compile(),
        res matches Ok(s) ==> s@ == cleaned_of(raw@),
        res matches Err(e) ==> e is SelectorError,
{
    let no_tags = substitute(TAG_PATTERN, raw, " ")?;
    let plain = to_text(&decode_entities(&to_chars(no_tags.as_str())));
    squeeze(plain.as_str())
}

/// The visible text of a page: the markup without `script` and `style`
/// elements, each tag replaced by a blank, the common character entities
/// decoded, runs of white space collapsed, and no white space at either
/// end. Fails exactly where one of the patterns is malformed.
pub fn extract_content(html: &str) -> (res: Result<String, CrawlerError>)
    ensures
        res is Ok <==> content_patterns_compile(),
        res matches Ok(s) ==> s@ == content_of(html@),
        res matches Err(e) ==> e is SelectorError,
{
    let no_script = substitute(SCRIPT_PATTERN, html, "")?;
    let no_style = substitute(STYLE_PATTERN, no_script.as_str(), "")?;
    clean_text(no_style.as_str())
}

} // verus!
