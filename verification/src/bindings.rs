//! The trusted boundary of the crate: every contract in this file is believed,
//! not proved. Each item names the outside function it stands for and says
//! what is claimed of it.

use vstd::prelude::*;
use crate::text::{optional_texts, text_of};

verus! {

/// `String::push` appends one character to the end of the string.
pub assume_specification[ String::push ](s: &mut String, ch: char)
    ensures
        final(s)@ == old(s)@.push(ch),
;

/// The error of the `regex` crate, carried through and never inspected.
#[verifier::external_type_specification]
#[verifier::external_body]
pub struct ExRegexError(regex::Error);

/// The error of the `url` crate, carried through and never inspected.
#[verifier::external_type_specification]
#[verifier::external_body]
pub struct ExUrlParseError(url::ParseError);

/// A point on the monotonic clock of `std::time`.
#[verifier::external_type_specification]
#[verifier::external_body]
pub struct ExInstant(std::time::Instant);

/// Whether `regex::Regex::new` accepts `pattern`.
pub uninterp spec fn regex_compiles(pattern: Seq<char>) -> bool;

/// What `regex::Regex::replace_all` returns for the regex compiled from
/// `pattern`, on `haystack`, with the replacement text `replacement`.
pub uninterp spec fn regex_replace_all(
    pattern: Seq<char>,
    haystack: Seq<char>,
    replacement: Seq<char>,
) -> Seq<char>;

/// What `regex::Regex::captures` finds for the regex compiled from `pattern`
/// on `haystack`: `None` where nothing matches, else the text of the first
/// capture group in the leftmost match (`Some(None)` where that group took no
/// part in the match).
pub uninterp spec fn regex_captures(pattern: Seq<char>, haystack: Seq<char>) -> Option<
    Option<Seq<char>>,
>;

/// What `regex::Regex::captures_iter` yields for the regex compiled from
/// `pattern` on `haystack`: for each successive non-overlapping match, in
/// order, the text of its first capture group (`None` where the group took no
/// part in that match).
pub uninterp spec fn regex_captures_iter(pattern: Seq<char>, haystack: Seq<char>) -> Seq<
    Option<Seq<char>>,
>;

/// What `url::Url::parse` makes of `input`: the serialization of the parsed
/// URL, or `None` where `input` is no absolute URL.
pub uninterp spec fn url_parse(input: Seq<char>) -> Option<Seq<char>>;

/// What `url::Url::join` makes of `reference` on the URL parsed from `base`:
/// the serialization of the resolved URL, or `None` where `base` is no
/// absolute URL or `reference` cannot be resolved against it.
pub uninterp spec fn url_join(base: Seq<char>, reference: Seq<char>) -> Option<Seq<char>>;

/// Calls `regex::Regex::new` on `pattern` and `Regex::replace_all` on the
/// result. Claims: the call fails exactly where the pattern does not compile,
/// and otherwise returns the replaced text, a function of the three texts.
#[verifier::external_body]
pub(crate) fn replace_all(pattern: &str, haystack: &str, replacement: &str) -> (res: Result<
    String,
    regex::Error,
>)
    ensures
        res is Ok <==> regex_compiles(pattern@),
        res matches Ok(s) ==> s@ == regex_replace_all(pattern@, haystack@, replacement@),
{
    let re = regex::Regex::new(pattern)?;
    Ok(re.replace_all(haystack, replacement).into_owned())
}

/// Calls `regex::Regex::new` on `pattern` and `Regex::captures` on the
/// result, and hands out the text of capture group 1. Claims: the call fails
/// exactly where the pattern does not compile, and otherwise returns what the
/// leftmost match captured, a function of the two texts.
#[verifier::external_body]
pub(crate) fn first_capture(pattern: &str, haystack: &str) -> (res: Result<
    Option<Option<String>>,
    regex::Error,
>)
    ensures
        res is Ok <==> regex_compiles(pattern@),
        res matches Ok(found) ==> match found {
            Some(group) => regex_captures(pattern@, haystack@) == Some(text_of(group)),
            None => regex_captures(pattern@, haystack@) is None,
        },
{
    let re = regex::Regex::new(pattern)?;
    Ok(re.captures(haystack).map(|caps| caps.get(1).map(|m| m.as_str().to_string())))
}

/// Calls `regex::Regex::new` on `pattern` and `Regex::captures_iter` on the
/// result, and hands out the text of capture group 1 of every match. Claims:
/// the call fails exactly where the pattern does not compile, and otherwise
/// returns the captures in match order, a function of the two texts.
#[verifier::external_body]
pub(crate) fn all_captures(pattern: &str, haystack: &str) -> (res: Result<
    Vec<Option<String>>,
    regex::Error,
>)
    ensures
        res is Ok <==> regex_compiles(pattern@),
        res matches Ok(groups) ==> optional_texts(groups@) == regex_captures_iter(
            pattern@,
            haystack@,
        ),
{
    let re = regex::Regex::new(pattern)?;
    Ok(re.captures_iter(haystack).map(|caps| caps.get(1).map(|m| m.as_str().to_string())).collect())
}

/// Renders a `regex::Error` through its `Display` impl. Nothing is claimed of
/// the text.
#[verifier::external_body]
pub(crate) fn regex_error_text(e: &regex::Error) -> String {
    format!("{}", e)
}

/// Calls `url::Url::parse` and hands out the serialization of the URL.
/// Claims: the result is a function of the input text.
#[verifier::external_body]
pub(crate) fn parse_url(input: &str) -> (res: Result<String, url::ParseError>)
    ensures
        match res {
            Ok(s) => url_parse(input@) == Some(s@),
            Err(_) => url_parse(input@) is None,
        },
{
    url::Url::parse(input).map(String::from)
}

/// Calls `url::Url::parse` on `base` and `Url::join` on the result, and hands
/// out the serialization of the resolved URL. Claims: the result is a function
/// of the two texts.
#[verifier::external_body]
pub(crate) fn join_url(base: &str, reference: &str) -> (res: Result<String, url::ParseError>)
    ensures
        match res {
            Ok(s) => url_join(base@, reference@) == Some(s@),
            Err(_) => url_join(base@, reference@) is None,
        },
{
    url::Url::parse(base)?.join(reference).map(String::from)
}

/// Renders a `url::ParseError` through its `Display` impl. Nothing is claimed
/// of the text.
#[verifier::external_body]
pub(crate) fn url_error_text(e: &url::ParseError) -> String {
    format!("{}", e)
}

/// Calls `chrono::Utc::now` and `DateTime::to_rfc3339`. The text depends on
/// the clock, so nothing is claimed of it.
#[verifier::external_body]
pub(crate) fn timestamp_now() -> String {
    chrono::Utc::now().to_rfc3339()
}

/// `Instant::now` reads the monotonic clock; nothing is claimed of the value.
pub assume_specification[ std::time::Instant::now ]() -> std::time::Instant;

/// `Instant::elapsed` measures the time since the instant; nothing is claimed
/// of the value.
pub assume_specification[ std::time::Instant::elapsed ](
    start: &std::time::Instant,
) -> core::time::Duration;

/// `Duration::as_millis` gives the whole milliseconds of a duration; nothing
/// is claimed of the value.
pub assume_specification[ core::time::Duration::as_millis ](d: &core::time::Duration) -> u128;

} // verus!
