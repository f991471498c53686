use keyword_crawler::links::{
    extract_links, find_next_page, find_next_target, insert_sorted, is_web, resolve_link,
    resolve_links, resolve_next, sort_links,
};

fn chars(s: &str) -> Vec<char> {
    s.chars().collect()
}

#[test]
fn links_are_resolved_filtered_sorted_and_unique() {
    let html = [
        "<a href=\"/zeta\">z</a>",
        "<a class=\"x\" href='https://other.org/p'>o</a>",
        "<a href=\"mailto:me@example.com\">m</a>",
        "<a href=\"tel:+123\">t</a>",
        "<a href=\"javascript:void(0)\">j</a>",
        "<a href=\"ftp://files.example.com/f\">f</a>",
        "<a href=\"about.html\">a</a>",
        "<a  href = \"/zeta\" >again</a>",
        "<a name=\"anchor\">no target</a>",
    ]
    .join("");
    let links = extract_links(&html, "https://example.com/dir/page.html").unwrap();
    assert_eq!(
        links,
        vec![
            "https://example.com/dir/about.html".to_string(),
            "https://example.com/zeta".to_string(),
            "https://other.org/p".to_string(),
        ]
    );
}

#[test]
fn page_without_anchors_has_no_links() {
    assert_eq!(extract_links("<p>nothing</p>", "https://example.com/").unwrap(), Vec::<String>::new());
    assert_eq!(extract_links("", "https://example.com/").unwrap(), Vec::<String>::new());
}

#[test]
fn base_that_does_not_parse_gives_no_links() {
    assert_eq!(extract_links("<a href=\"/x\">x</a>", "no base").unwrap(), Vec::<String>::new());
}

#[test]
fn resolve_link_skips_what_is_no_page() {
    let base = "https://example.com/a/b";
    assert_eq!(resolve_link(base, &None), None);
    assert_eq!(resolve_link(base, &Some("mailto:x@y.z".to_string())), None);
    assert_eq!(resolve_link(base, &Some("tel:1".to_string())), None);
    assert_eq!(resolve_link(base, &Some("javascript:x()".to_string())), None);
    assert_eq!(resolve_link(base, &Some("data:text/plain,hi".to_string())), None);
    assert_eq!(resolve_link(base, &Some("c".to_string())), Some(chars("https://example.com/a/c")));
    assert_eq!(
        resolve_link(base, &Some("//cdn.example.com/x".to_string())),
        Some(chars("https://cdn.example.com/x"))
    );
    assert_eq!(
        resolve_links(base, &vec![Some("c".to_string()), None, Some("tel:1".to_string()), Some("/d".to_string())]),
        vec![chars("https://example.com/a/c"), chars("https://example.com/d")]
    );
}

#[test]
fn web_urls_are_http_or_https() {
    assert!(is_web(&chars("http://a")));
    assert!(is_web(&chars("https://a")));
    assert!(!is_web(&chars("ftp://a")));
    assert!(!is_web(&chars("HTTP://a")));
    assert!(!is_web(&chars("http:/")));
}

#[test]
fn sorting_keeps_each_link_once() {
    let found = vec![chars("b"), chars("a"), chars("c"), chars("a"), chars("ab"), chars("b")];
    assert_eq!(
        sort_links(found),
        vec!["a".to_string(), "ab".to_string(), "b".to_string(), "c".to_string()]
    );
    assert_eq!(sort_links(Vec::new()), Vec::<String>::new());
}

#[test]
fn insert_sorted_finds_the_place() {
    let mut list = vec![chars("b"), chars("d")];
    insert_sorted(&mut list, chars("c"));
    insert_sorted(&mut list, chars("a"));
    insert_sorted(&mut list, chars("e"));
    insert_sorted(&mut list, chars("c"));
    assert_eq!(list, vec![chars("a"), chars("b"), chars("c"), chars("d"), chars("e")]);
}

#[test]
fn next_page_by_rel_comes_first() {
    let html = "<a class=\"next\" href=\"/by-class\">x</a> <a href=\"/by-text\">Next</a> <a rel=\"next\" href=\"/by-rel\">y</a>";
    assert_eq!(find_next_target(html).unwrap(), Some("/by-rel".to_string()));
    assert_eq!(
        find_next_page(html, "https://example.com/list?page=1").unwrap(),
        Some("https://example.com/by-rel".to_string())
    );
}

#[test]
fn next_page_by_rel_with_target_first() {
    let html = "<link href=\"/page2\" rel=\"next\">";
    assert_eq!(find_next_target(html).unwrap(), Some("/page2".to_string()));
}

#[test]
fn next_page_by_class_comes_before_text() {
    let html = "<a href=\"/by-text\">Next</a> <a class=\"btn pagination-next big\" href=\"/by-class\">more</a>";
    assert_eq!(find_next_target(html).unwrap(), Some("/by-class".to_string()));
    let reversed = "<a href=\"/by-class\" class=\"next\">more</a>";
    assert_eq!(find_next_target(reversed).unwrap(), Some("/by-class".to_string()));
    let other_class = "<a class=\"nextish\" href=\"/no\">more</a>";
    assert_eq!(find_next_target(other_class).unwrap(), None);
}

#[test]
fn next_page_by_text() {
    assert_eq!(
        find_next_page("<a href=\"?page=2\">Next \u{bb}</a>", "https://example.com/list?page=1").unwrap(),
        Some("https://example.com/list?page=2".to_string())
    );
    assert_eq!(find_next_target("<a href=\"/p\">\u{bb}</a>").unwrap(), Some("/p".to_string()));
    assert_eq!(find_next_target("<a href=\"/p\">Previous</a>").unwrap(), None);
}

#[test]
fn page_without_next_link_has_no_next_page() {
    assert_eq!(find_next_page("<p>the end</p>", "https://example.com/").unwrap(), None);
    assert_eq!(find_next_page("", "https://example.com/").unwrap(), None);
}

#[test]
fn next_target_that_cannot_be_resolved_is_no_next_page() {
    assert_eq!(resolve_next("not a base", Some("/p".to_string())), None);
    assert_eq!(resolve_next("https://example.com/", None), None);
    assert_eq!(
        resolve_next("https://example.com/a/", Some("../b".to_string())),
        Some("https://example.com/b".to_string())
    );
}
