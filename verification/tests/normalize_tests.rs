use keyword_crawler::error::CrawlerError;
use keyword_crawler::normalize::{
    dropped_segments, normalize_urls, parse_candidates, rejected_candidates, seed_candidates,
};

#[test]
fn candidates_are_trimmed_and_given_a_scheme() {
    let got = seed_candidates(" example.com , `http://a.org/x`,, https://b.net ,\t");
    assert_eq!(
        got,
        vec![
            "https://example.com".to_string(),
            "http://a.org/x".to_string(),
            "https://b.net".to_string(),
        ]
    );
}

#[test]
fn malformed_segment_is_dropped() {
    let got = normalize_urls("example.com, not a url, example.org").unwrap();
    assert_eq!(
        got,
        vec!["https://example.com/".to_string(), "https://example.org/".to_string()]
    );
}

#[test]
fn empty_input_is_refused() {
    assert!(matches!(normalize_urls(""), Err(CrawlerError::UrlError(_))));
    assert!(matches!(normalize_urls(" , ,` `"), Err(CrawlerError::UrlError(_))));
    assert!(matches!(normalize_urls("not a url"), Err(CrawlerError::UrlError(_))));
}

#[test]
fn dropped_segments_are_those_that_do_not_parse() {
    assert_eq!(
        dropped_segments("example.com, not a url, example.org, http://"),
        vec!["https://not a url".to_string(), "http://".to_string()]
    );
    assert_eq!(dropped_segments("example.com"), Vec::<String>::new());
    assert_eq!(dropped_segments(" , "), Vec::<String>::new());
}

#[test]
fn every_candidate_is_kept_or_dropped() {
    let candidates = seed_candidates("a.example, b c, `d.example`, ://, e.example/x y");
    let kept = parse_candidates(&candidates);
    let dropped = rejected_candidates(&candidates);
    assert_eq!(kept.len() + dropped.len(), candidates.len());
    assert_eq!(kept[0], "https://a.example/");
    assert_eq!(dropped[0], "https://b c");
}
