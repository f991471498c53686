use keyword_crawler::text::{
    contains_text, find_occurrences, is_match_at, is_space, order, replace, slice, starts_with,
    to_chars, to_lower, to_lowered, to_text, trim, Order,
};

fn chars(s: &str) -> Vec<char> {
    s.chars().collect()
}

#[test]
fn chars_and_text_round_trip() {
    let v = to_chars("héllo, wörld");
    assert_eq!(v, chars("héllo, wörld"));
    assert_eq!(to_text(&v), "héllo, wörld");
    assert_eq!(to_text(&Vec::new()), "");
}

#[test]
fn slice_copies_a_range() {
    let v = chars("abcdef");
    assert_eq!(slice(&v, 1, 4), chars("bcd"));
    assert_eq!(slice(&v, 2, 2), chars(""));
    assert_eq!(slice(&v, 0, 6), v);
}

#[test]
fn white_space_is_what_std_says() {
    for n in 0u32..0x3100 {
        if let Some(c) = char::from_u32(n) {
            assert_eq!(is_space(c), c.is_whitespace(), "code point {:#x}", n);
        }
    }
}

#[test]
fn trim_drops_both_ends_only() {
    assert_eq!(trim(&chars("  \t a b \n")), chars("a b"));
    assert_eq!(trim(&chars("\u{a0}x\u{3000}")), chars("x"));
    assert_eq!(trim(&chars("   ")), chars(""));
    assert_eq!(trim(&chars("")), chars(""));
    assert_eq!(trim(&chars("ab")), chars("ab"));
}

#[test]
fn lower_case_is_ascii_only() {
    assert_eq!(to_lower('A'), 'a');
    assert_eq!(to_lower('Z'), 'z');
    assert_eq!(to_lower('@'), '@');
    assert_eq!(to_lower('['), '[');
    assert_eq!(to_lower('q'), 'q');
    assert_eq!(to_lower('É'), 'É');
    assert_eq!(to_lowered(&chars("Hello WORLD É 9")), chars("hello world É 9"));
}

#[test]
fn match_at_a_position() {
    let t = chars("abcabc");
    assert!(is_match_at(&t, &chars("bc"), 1));
    assert!(is_match_at(&t, &chars("bc"), 4));
    assert!(!is_match_at(&t, &chars("bc"), 0));
    assert!(!is_match_at(&t, &chars("bc"), 5));
    assert!(!is_match_at(&t, &chars("bc"), 99));
    assert!(is_match_at(&t, &chars(""), 6));
    assert!(!is_match_at(&t, &chars(""), 7));
    assert!(starts_with(&t, &chars("abc")));
    assert!(!starts_with(&t, &chars("bca")));
    assert!(!starts_with(&chars("ab"), &chars("abc")));
}

#[test]
fn occurrences_do_not_overlap() {
    assert_eq!(find_occurrences(&chars("aaaa"), &chars("aa")), vec![0, 2]);
    assert_eq!(find_occurrences(&chars("aaaaa"), &chars("aa")), vec![0, 2]);
    assert_eq!(find_occurrences(&chars("abcabcab"), &chars("abc")), vec![0, 3]);
    assert_eq!(find_occurrences(&chars("abc"), &chars("")), Vec::<usize>::new());
    assert_eq!(find_occurrences(&chars("ab"), &chars("abc")), Vec::<usize>::new());
    assert_eq!(find_occurrences(&chars("xyz"), &chars("xyz")), vec![0]);
}

#[test]
fn replace_goes_left_to_right() {
    assert_eq!(replace(&chars("a&amp;b&amp;"), &chars("&amp;"), &chars("&")), chars("a&b&"));
    assert_eq!(replace(&chars("aaa"), &chars("aa"), &chars("b")), chars("ba"));
    assert_eq!(replace(&chars("abc"), &chars(""), &chars("x")), chars("abc"));
    assert_eq!(replace(&chars("abc"), &chars("abc"), &chars("")), chars(""));
    assert_eq!(replace(&chars(""), &chars("a"), &chars("b")), chars(""));
}

#[test]
fn order_is_the_order_of_strings() {
    let samples = ["", "a", "ab", "abc", "abd", "b", "B", "é", "z", "https://a/", "https://a/b"];
    for x in samples {
        for y in samples {
            let expected = if x < y {
                Order::Before
            } else if x == y {
                Order::Same
            } else {
                Order::After
            };
            assert_eq!(order(&chars(x), &chars(y)), expected, "{:?} against {:?}", x, y);
        }
    }
}

#[test]
fn contains_text_looks_at_every_item() {
    let list = vec!["a".to_string(), "bc".to_string()];
    assert!(contains_text(&list, &"bc".to_string()));
    assert!(contains_text(&list, &"a".to_string()));
    assert!(!contains_text(&list, &"b".to_string()));
    assert!(!contains_text(&Vec::new(), &"a".to_string()));
}
