//! Character-sequence primitives shared by the rest of the crate.
//!
//! Texts are handled as sequences of Unicode scalar values, so positions and
//! lengths count characters, never bytes.

use vstd::prelude::*;

verus! {

/// The content of an optional string.
pub open spec fn text_of(o: Option<String>) -> Option<Seq<char>> {
    match o {
        Some(s) => Some(s@),
        None => None,
    }
}

/// The contents of a sequence of strings.
pub open spec fn texts(v: Seq<String>) -> Seq<Seq<char>> {
    v.map_values(|s: String| s@)
}

/// The contents of a sequence of optional strings.
pub open spec fn optional_texts(v: Seq<Option<String>>) -> Seq<Option<Seq<char>>> {
    v.map_values(|o: Option<String>| text_of(o))
}

/// The characters of `s`, in order.
pub fn to_chars(s: &str) -> (v: Vec<char>)
    ensures
        v@ == s@,
{
    let mut v: Vec<char> = Vec::new();
    for c in it: s.chars()
        invariant
            v@ == it.seq().take(it.index() as int),
            it.seq() == s@,
    {
        v.push(c);
    }
    v
}

/// The string made of the characters of `v`, in order.
pub fn to_text(v: &Vec<char>) -> (s: String)
    ensures
        s@ == v@,
{
    let mut s = String::new();
    let mut i: usize = 0;
    while i < v.len()
        invariant
            i <= v.len(),
            s@ == v@.take(i as int),
        decreases v.len() - i,
    {
        s.push(v[i]);
        i += 1;
    }
    s
}

/// A copy of the characters of `v` from position `from` up to `to`.
pub fn slice(v: &Vec<char>, from: usize, to: usize) -> (r: Vec<char>)
    requires
        from <= to <= v.len(),
    ensures
        r@ == v@.subrange(from as int, to as int),
{
    let mut r: Vec<char> = Vec::new();
    let mut i: usize = from;
    while i < to
        invariant
            from <= i <= to <= v.len(),
            r@ == v@.subrange(from as int, i as int),
        decreases to - i,
    {
        r.push(v[i]);
        i += 1;
    }
    r
}

/// Appends the characters of `tail` to `head`.
pub fn append(head: &mut Vec<char>, tail: &Vec<char>)
    ensures
        final(head)@ == old(head)@ + tail@,
{
    let mut i: usize = 0;
    while i < tail.len()
        invariant
            i <= tail.len(),
            head@ == old(head)@ + tail@.take(i as int),
        decreases tail.len() - i,
    {
        head.push(tail[i]);
        i += 1;
    }
}

/// Unicode `White_Space`, the characters that `char::is_whitespace` accepts.
pub open spec fn is_whitespace(c: char) -> bool {
    let n = c as u32;
    ||| 0x09 <= n <= 0x0D
    ||| n == 0x20
    ||| n == 0x85
    ||| n == 0xA0
    ||| n == 0x1680
    ||| 0x2000 <= n <= 0x200A
    ||| n == 0x2028
    ||| n == 0x2029
    ||| n == 0x202F
    ||| n == 0x205F
    ||| n == 0x3000
}

/// Tells whether `c` is a white-space character.
pub fn is_space(c: char) -> (b: bool)
    ensures
        b == is_whitespace(c),
{
    let n: u32 = c as u32;
    (0x09 <= n && n <= 0x0D) || n == 0x20 || n == 0x85 || n == 0xA0 || n == 0x1680 || (0x2000 <= n
        && n <= 0x200A) || n == 0x2028 || n == 0x2029 || n == 0x202F || n == 0x205F || n == 0x3000
}

/// `s` without its leading white space.
pub open spec fn trim_start(s: Seq<char>) -> Seq<char>
    decreases s.len(),
{
    if s.len() > 0 && is_whitespace(s.first()) {
        trim_start(s.drop_first())
    } else {
        s
    }
}

/// `s` without its trailing white space.
pub open spec fn trim_end(s: Seq<char>) -> Seq<char>
    decreases s.len(),
{
    if s.len() > 0 && is_whitespace(s.last()) {
        trim_end(s.drop_last())
    } else {
        s
    }
}

/// `s` without leading and trailing white space.
pub open spec fn trimmed(s: Seq<char>) -> Seq<char> {
    trim_end(trim_start(s))
}

/// Removes leading and trailing white space.
pub fn trim(v: &Vec<char>) -> (r: Vec<char>)
    ensures
        r@ == trimmed(v@),
{
    let n = v.len();
    let mut start: usize = 0;
    assert(v@.subrange(0, n as int) == v@);
    while start < n && is_space(v[start])
        invariant
            start <= n == v.len(),
            trim_start(v@) == trim_start(v@.subrange(start as int, n as int)),
        decreases n - start,
    {
        assert(v@.subrange(start as int, n as int).drop_first() == v@.subrange(
            start as int + 1,
            n as int,
        ));
        start += 1;
    }
    assert(trim_start(v@) == v@.subrange(start as int, n as int));
    let mut end: usize = n;
    while end > start && is_space(v[end - 1])
        invariant
            start <= end <= n == v.len(),
            trimmed(v@) == trim_end(v@.subrange(start as int, end as int)),
        decreases end - start,
    {
        assert(v@.subrange(start as int, end as int).drop_last() == v@.subrange(
            start as int,
            end as int - 1,
        ));
        end -= 1;
    }
    slice(v, start, end)
}

/// The ASCII lower-case form of `c`: `A`..`Z` become `a`..`z`, every other
/// character stays.
pub open spec fn lower(c: char) -> char {
    if 'A' as u32 <= c as u32 <= 'Z' as u32 {
        ((c as u32 + 32) as u8) as char
    } else {
        c
    }
}

/// `s` with every character in its ASCII lower-case form.
pub open spec fn lowered(s: Seq<char>) -> Seq<char> {
    s.map_values(|c: char| lower(c))
}

/// The ASCII lower-case form of `c`.
pub fn to_lower(c: char) -> (r: char)
    ensures
        r == lower(c),
{
    let n: u32 = c as u32;
    if 65 <= n && n <= 90 {
        let b: u8 = (n + 32) as u8;
        b as char
    } else {
        c
    }
}

/// A copy of `v` in ASCII lower case.
pub fn to_lowered(v: &Vec<char>) -> (r: Vec<char>)
    ensures
        r@ == lowered(v@),
{
    let mut r: Vec<char> = Vec::new();
    let mut i: usize = 0;
    while i < v.len()
        invariant
            i <= v.len(),
            r@ == lowered(v@.take(i as int)),
        decreases v.len() - i,
    {
        r.push(to_lower(v[i]));
        i += 1;
        assert(r@ == lowered(v@.take(i as int)));
    }
    assert(v@.take(v.len() as int) == v@);
    r
}

/// Whether `pat` stands in `text` at position `at`.
pub open spec fn matches_at(text: Seq<char>, pat: Seq<char>, at: int) -> bool {
    &&& 0 <= at
    &&& at + pat.len() <= text.len()
    &&& text.subrange(at, at + pat.len()) == pat
}

/// Whether `text` begins with `pat`.
pub open spec fn has_prefix(text: Seq<char>, pat: Seq<char>) -> bool {
    matches_at(text, pat, 0)
}

/// Tells whether `pat` stands in `text` at position `at`.
pub fn is_match_at(text: &Vec<char>, pat: &Vec<char>, at: usize) -> (b: bool)
    ensures
        b == matches_at(text@, pat@, at as int),
{
    let k = pat.len();
    if k > text.len() || at > text.len() - k {
        return false;
    }
    let mut j: usize = 0;
    while j < k
        invariant
            j <= k == pat.len(),
            at + k <= text.len(),
            text@.subrange(at as int, at + j) == pat@.take(j as int),
        decreases k - j,
    {
        if text[at + j] != pat[j] {
            assert(text@.subrange(at as int, at + k)[j as int] == text@[at + j]);
            return false;
        }
        j += 1;
        assert(text@.subrange(at as int, at + j) == pat@.take(j as int));
    }
    assert(pat@.take(k as int) == pat@);
    true
}

/// Tells whether `text` begins with `pat`.
pub fn starts_with(text: &Vec<char>, pat: &Vec<char>) -> (b: bool)
    ensures
        b == has_prefix(text@, pat@),
{
    is_match_at(text, pat, 0)
}

/// The positions of the occurrences of `pat` in `text` at or after `from`,
/// found from left to right without overlap. An empty `pat` occurs nowhere.
pub open spec fn occurrences(text: Seq<char>, pat: Seq<char>, from: int) -> Seq<int>
    decreases text.len() - from,
{
    if pat.len() == 0 || from < 0 || from + pat.len() > text.len() {
        Seq::empty()
    } else if matches_at(text, pat, from) {
        seq![from] + occurrences(text, pat, from + pat.len())
    } else {
        occurrences(text, pat, from + 1)
    }
}

/// A sequence of positions as mathematical integers.
pub open spec fn positions(v: Seq<usize>) -> Seq<int> {
    v.map_values(|p: usize| p as int)
}

/// Every position of `occurrences` is a match that fits in the text.
pub proof fn lemma_occurrences_fit(text: Seq<char>, pat: Seq<char>, from: int)
    ensures
        forall|i: int|
            0 <= i < occurrences(text, pat, from).len() ==> {
                &&& from <= #[trigger] occurrences(text, pat, from)[i]
                &&& matches_at(text, pat, occurrences(text, pat, from)[i])
            },
        0 <= from <= text.len() ==> occurrences(text, pat, from).len() <= text.len() - from,
        !(0 <= from <= text.len()) ==> occurrences(text, pat, from).len() == 0,
    decreases text.len() - from,
{
    if pat.len() == 0 || from < 0 || from + pat.len() > text.len() {
    } else if matches_at(text, pat, from) {
        lemma_occurrences_fit(text, pat, from + pat.len());
    } else {
        lemma_occurrences_fit(text, pat, from + 1);
    }
}

/// Finds the occurrences of `pat` in `text`, from left to right without
/// overlap.
pub fn find_occurrences(text: &Vec<char>, pat: &Vec<char>) -> (found: Vec<usize>)
    ensures
        positions(found@) == occurrences(text@, pat@, 0),
{
    let mut found: Vec<usize> = Vec::new();
    let n = text.len();
    let k = pat.len();
    if k == 0 || k > n {
        return found;
    }
    let mut i: usize = 0;
    while i <= n - k
        invariant
            0 < k <= n,
            n == text.len(),
            k == pat.len(),
            i <= n,
            positions(found@) + occurrences(text@, pat@, i as int) == occurrences(text@, pat@, 0),
        decreases n - i,
    {
        if is_match_at(text, pat, i) {
            let ghost before = found@;
            found.push(i);
            assert(positions(found@) == positions(before) + seq![i as int]);
            assert(positions(found@) + occurrences(text@, pat@, i + k) == positions(before) + (
            seq![i as int] + occurrences(text@, pat@, i + k)));
            i += k;
        } else {
            i += 1;
        }
    }
    assert(positions(found@) + Seq::<int>::empty() == positions(found@));
    found
}

/// `text` from position `from` on, with every occurrence of `pat` (found from
/// left to right without overlap) replaced by `with`. An empty `pat` occurs
/// nowhere.
pub open spec fn replaced_from(text: Seq<char>, pat: Seq<char>, with: Seq<char>, from: int) -> Seq<
    char,
>
    decreases text.len() - from,
{
    if from < 0 || from >= text.len() {
        Seq::empty()
    } else if pat.len() > 0 && matches_at(text, pat, from) {
        with + replaced_from(text, pat, with, from + pat.len())
    } else {
        seq![text[from]] + replaced_from(text, pat, with, from + 1)
    }
}

/// `text` with every occurrence of `pat` replaced by `with`.
pub open spec fn replaced(text: Seq<char>, pat: Seq<char>, with: Seq<char>) -> Seq<char> {
    replaced_from(text, pat, with, 0)
}

/// Replaces every occurrence of `pat` in `text` by `with`.
pub fn replace(text: &Vec<char>, pat: &Vec<char>, with: &Vec<char>) -> (out: Vec<char>)
    ensures
        out@ == replaced(text@, pat@, with@),
{
    let mut out: Vec<char> = Vec::new();
    let n = text.len();
    let k = pat.len();
    let mut i: usize = 0;
    while i < n
        invariant
            n == text.len(),
            k == pat.len(),
            i <= n,
            out@ + replaced_from(text@, pat@, with@, i as int) == replaced(text@, pat@, with@),
        decreases n - i,
    {
        let ghost before = out@;
        if k > 0 && is_match_at(text, pat, i) {
            append(&mut out, with);
            assert(out@ + replaced_from(text@, pat@, with@, i + k) == before + (with@
                + replaced_from(text@, pat@, with@, i + k)));
            i += k;
        } else {
            out.push(text[i]);
            assert(out@ + replaced_from(text@, pat@, with@, i + 1) == before + (seq![text@[i as int]]
                + replaced_from(text@, pat@, with@, i + 1)));
            i += 1;
        }
    }
    assert(out@ + Seq::<char>::empty() == out@);
    out
}

/// Whether `a` and `b` agree before position `k` and `a` is the smaller
/// one there: it ends at `k` while `b` goes on, or its character at `k` has
/// the smaller code point.
pub open spec fn smaller_at(a: Seq<char>, b: Seq<char>, k: int) -> bool {
    &&& 0 <= k <= a.len()
    &&& k < b.len()
    &&& forall|j: int| 0 <= j < k ==> a[j] == b[j]
    &&& k == a.len() || (a[k] as int) < (b[k] as int)
}

/// Whether `a` comes before `b` in the order of the code points, the order
/// in which strings sort.
pub open spec fn lex_less(a: Seq<char>, b: Seq<char>) -> bool {
    exists|k: int| smaller_at(a, b, k)
}

/// Whether each text of `s` comes before the next: sorted, and none twice.
pub open spec fn strictly_sorted(s: Seq<Seq<char>>) -> bool {
    forall|i: int, j: int| 0 <= i < j < s.len() ==> lex_less(#[trigger] s[i], #[trigger] s[j])
}

/// No text comes before itself.
pub proof fn lemma_lex_less_irreflexive(a: Seq<char>)
    ensures
        !lex_less(a, a),
{
    assert forall|k: int| !smaller_at(a, a, k) by {}
}

/// The order is transitive.
pub proof fn lemma_lex_less_transitive(a: Seq<char>, b: Seq<char>, c: Seq<char>)
    requires
        lex_less(a, b),
        lex_less(b, c),
    ensures
        lex_less(a, c),
{
    let k1 = choose|k: int| smaller_at(a, b, k);
    let k2 = choose|k: int| smaller_at(b, c, k);
    let k = if k1 < k2 {
        k1
    } else {
        k2
    };
    assert(smaller_at(a, c, k));
}

/// A strictly sorted sequence holds no text twice.
pub proof fn lemma_strictly_sorted_no_duplicates(s: Seq<Seq<char>>)
    requires
        strictly_sorted(s),
    ensures
        s.no_duplicates(),
{
    assert forall|i: int, j: int| 0 <= i < s.len() && 0 <= j < s.len() && i != j implies s[i]
        != s[j] by {
        lemma_lex_less_irreflexive(s[i]);
        if i < j {
            assert(lex_less(s[i], s[j]));
        } else {
            assert(lex_less(s[j], s[i]));
        }
    }
}

/// How one text stands to another in the order of the code points.
#[derive(Debug, Clone, Copy, PartialEq, Eq, Structural)]
pub enum Order {
    /// The first comes before the second.
    Before,
    /// The two are the same text.
    Same,
    /// The first comes after the second.
    After,
}

/// Tells how `a` stands to `b` in the order of the code points.
pub fn order(a: &Vec<char>, b: &Vec<char>) -> (o: Order)
    ensures
        o == Order::Before <==> lex_less(a@, b@),
        o == Order::Same <==> a@ == b@,
        o == Order::After <==> lex_less(b@, a@),
{
    let mut i: usize = 0;
    while i < a.len() && i < b.len()
        invariant
            i <= a.len(),
            i <= b.len(),
            forall|j: int| 0 <= j < i ==> a[j] == b[j],
        decreases a.len() - i,
    {
        let x: char = a[i];
        let y: char = b[i];
        if x < y {
            proof {
                assert(smaller_at(a@, b@, i as int));
                lemma_order_exclusive(a@, b@);
            }
            return Order::Before;
        }
        if y < x {
            proof {
                assert(smaller_at(b@, a@, i as int));
                lemma_order_exclusive(b@, a@);
            }
            return Order::After;
        }
        i += 1;
    }
    if i < b.len() {
        proof {
            assert(smaller_at(a@, b@, i as int));
            lemma_order_exclusive(a@, b@);
        }
        Order::Before
    } else if i < a.len() {
        proof {
            assert(smaller_at(b@, a@, i as int));
            lemma_order_exclusive(b@, a@);
        }
        Order::After
    } else {
        proof {
            assert(a@ =~= b@);
            lemma_lex_less_irreflexive(a@);
        }
        Order::Same
    }
}

/// A text that comes before another is not the same and does not come after
/// it.
pub proof fn lemma_order_exclusive(a: Seq<char>, b: Seq<char>)
    requires
        lex_less(a, b),
    ensures
        a != b,
        !lex_less(b, a),
{
    lemma_lex_less_irreflexive(a);
    if lex_less(b, a) {
        lemma_lex_less_transitive(a, b, a);
    }
}

/// Tells whether `list` holds the text `s`.
pub fn contains_text(list: &Vec<String>, s: &String) -> (b: bool)
    ensures
        b == texts(list@).contains(s@),
{
    let mut i: usize = 0;
    while i < list.len()
        invariant
            i <= list.len(),
            forall|j: int| 0 <= j < i ==> texts(list@)[j] != s@,
        decreases list.len() - i,
    {
        if list[i] == *s {
            assert(texts(list@)[i as int] == s@);
            return true;
        }
        assert(texts(list@)[i as int] == list@[i as int]@);
        i += 1;
    }
    false
}

} // verus!
