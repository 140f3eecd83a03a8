//! Character-level text primitives.
//!
//! Strings are handled as sequences of `char`. Each function states its
//! result over `Seq<char>`, so that callers can reason about text without
//! looking at bytes or encodings.

use vstd::prelude::*;

verus! {

/// `String::push` appends one character to the end of the string.
pub assume_specification[ String::push ](s: &mut String, c: char)
    ensures
        final(s)@ == old(s)@.push(c),
;

/// Characters with the Unicode `White_Space` property.
pub open spec fn is_whitespace(c: char) -> bool {
    ||| '\u{9}' <= c <= '\u{D}'
    ||| c == ' '
    ||| c == '\u{85}'
    ||| c == '\u{A0}'
    ||| c == '\u{1680}'
    ||| '\u{2000}' <= c <= '\u{200A}'
    ||| c == '\u{2028}'
    ||| c == '\u{2029}'
    ||| c == '\u{202F}'
    ||| c == '\u{205F}'
    ||| c == '\u{3000}'
}

/// The padding that surrounds a value in a header line or a JSON member:
/// whitespace, a double quote or a comma.
pub open spec fn is_padding(c: char) -> bool {
    is_whitespace(c) || c == '"' || c == ','
}

/// The upper-case form of an ASCII letter; any other character is unchanged.
pub open spec fn ascii_upper(c: char) -> char {
    if 'a' <= c <= 'z' {
        ((c as u8) - 32) as char
    } else {
        c
    }
}

/// The lower-case form of an ASCII letter; any other character is unchanged.
pub open spec fn ascii_lower(c: char) -> char {
    if 'A' <= c <= 'Z' {
        ((c as u8) + 32) as char
    } else {
        c
    }
}

/// `s` with every ASCII letter in upper case.
pub open spec fn upper(s: Seq<char>) -> Seq<char> {
    Seq::new(s.len(), |i: int| ascii_upper(s[i]))
}

/// `s` with every ASCII letter in lower case.
pub open spec fn lower(s: Seq<char>) -> Seq<char> {
    Seq::new(s.len(), |i: int| ascii_lower(s[i]))
}

/// The number of leading characters of `s` that satisfy `p`.
pub open spec fn prefix_len(s: Seq<char>, p: spec_fn(char) -> bool) -> nat
    decreases s.len(),
{
    if s.len() > 0 && p(s[0]) {
        1 + prefix_len(s.drop_first(), p)
    } else {
        0
    }
}

/// The number of trailing characters of `s` that satisfy `p`.
pub open spec fn suffix_len(s: Seq<char>, p: spec_fn(char) -> bool) -> nat
    decreases s.len(),
{
    if s.len() > 0 && p(s.last()) {
        1 + suffix_len(s.drop_last(), p)
    } else {
        0
    }
}

/// `s` without its leading characters that satisfy `p`.
pub open spec fn strip_front(s: Seq<char>, p: spec_fn(char) -> bool) -> Seq<char> {
    s.skip(prefix_len(s, p) as int)
}

/// `s` without its trailing characters that satisfy `p`.
pub open spec fn strip_back(s: Seq<char>, p: spec_fn(char) -> bool) -> Seq<char> {
    s.take(s.len() - suffix_len(s, p))
}

/// `s` without its leading and trailing characters that satisfy `p`.
pub open spec fn strip(s: Seq<char>, p: spec_fn(char) -> bool) -> Seq<char> {
    strip_back(strip_front(s, p), p)
}

/// The predicate of [`is_whitespace`].
pub open spec fn whitespace() -> spec_fn(char) -> bool {
    |c: char| is_whitespace(c)
}

/// The predicate of [`is_padding`].
pub open spec fn padding() -> spec_fn(char) -> bool {
    |c: char| is_padding(c)
}

/// The predicate that holds of everything but whitespace.
pub open spec fn non_whitespace() -> spec_fn(char) -> bool {
    |c: char| !is_whitespace(c)
}

/// The characters of `s` up to its first whitespace.
pub open spec fn first_word(s: Seq<char>) -> Seq<char> {
    s.take(prefix_len(s, non_whitespace()) as int)
}

/// `s` without its whitespace.
pub open spec fn squeeze(s: Seq<char>) -> Seq<char>
    decreases s.len(),
{
    if s.len() == 0 {
        Seq::empty()
    } else if is_whitespace(s.last()) {
        squeeze(s.drop_last())
    } else {
        squeeze(s.drop_last()).push(s.last())
    }
}

/// The first `n` characters of `s`, or all of `s` where it is shorter.
pub open spec fn prefix(s: Seq<char>, n: nat) -> Seq<char> {
    if s.len() <= n {
        s
    } else {
        s.take(n as int)
    }
}

/// The words of `s`: its maximal runs of characters that are not
/// whitespace, in order.
pub open spec fn words(s: Seq<char>) -> Seq<Seq<char>>
    decreases s.len(),
{
    let t = strip_front(s, whitespace());
    let w = first_word(t);
    if t.len() == 0 || w.len() == 0 || w.len() > t.len() || t.len() > s.len() {
        Seq::empty()
    } else {
        seq![w] + words(t.skip(w.len() as int))
    }
}

/// The lines of `s`: the pieces between line feeds, without the empty piece
/// after a line feed at the end. The empty text has no line.
pub open spec fn lines(s: Seq<char>) -> Seq<Seq<char>> {
    let pieces = split(s, '\n');
    if pieces.len() > 0 && pieces.last().len() == 0 {
        pieces.drop_last()
    } else {
        pieces
    }
}

/// `s` without leading and trailing whitespace.
pub open spec fn trim(s: Seq<char>) -> Seq<char> {
    strip(s, whitespace())
}

/// Whether `needle` occurs in `hay` starting at index `i`.
pub open spec fn occurs_at(hay: Seq<char>, needle: Seq<char>, i: int) -> bool {
    &&& 0 <= i
    &&& i + needle.len() <= hay.len()
    &&& hay.subrange(i, i + needle.len()) == needle
}

/// The first index at or after `from` where `needle` occurs in `hay`.
pub open spec fn find_from(hay: Seq<char>, needle: Seq<char>, from: int) -> Option<int>
    decreases hay.len() - from,
{
    if from < 0 || from + needle.len() > hay.len() {
        None
    } else if occurs_at(hay, needle, from) {
        Some(from)
    } else if from >= hay.len() {
        None
    } else {
        find_from(hay, needle, from + 1)
    }
}

/// The first index where `needle` occurs in `hay`.
pub open spec fn find(hay: Seq<char>, needle: Seq<char>) -> Option<int> {
    find_from(hay, needle, 0)
}

/// Whether `needle` occurs somewhere in `hay`.
pub open spec fn contains(hay: Seq<char>, needle: Seq<char>) -> bool {
    find(hay, needle) is Some
}

/// Whether `s` begins with `prefix`.
pub open spec fn starts_with(s: Seq<char>, prefix: Seq<char>) -> bool {
    occurs_at(s, prefix, 0)
}

/// Whether `s` ends with `suffix`.
pub open spec fn ends_with(s: Seq<char>, suffix: Seq<char>) -> bool {
    occurs_at(s, suffix, s.len() - suffix.len())
}

/// The index of the first `c` in `s`, or the length of `s` where there is
/// none.
pub open spec fn first_index(s: Seq<char>, c: char) -> int
    decreases s.len(),
{
    if s.len() == 0 || s[0] == c {
        0
    } else {
        1 + first_index(s.drop_first(), c)
    }
}

/// The pieces of `s` between occurrences of `sep`. There is always at least
/// one piece; a separator at the end is followed by an empty piece.
pub open spec fn split(s: Seq<char>, sep: char) -> Seq<Seq<char>>
    decreases s.len(),
{
    let i = first_index(s, sep);
    if 0 <= i < s.len() {
        seq![s.take(i)] + split(s.skip(i + 1), sep)
    } else {
        seq![s]
    }
}

/// An index before which no character is `c`, and which holds `c` or is the
/// length of `s`, is `first_index`.
pub proof fn lemma_first_index_is(s: Seq<char>, c: char, n: int)
    requires
        0 <= n <= s.len(),
        forall|j: int| 0 <= j < n ==> s[j] != c,
        n < s.len() ==> s[n] == c,
    ensures
        first_index(s, c) == n,
    decreases s.len(),
{
    if n > 0 {
        let t = s.drop_first();
        assert(s[0] != c);
        assert forall|j: int| 0 <= j < n - 1 implies t[j] != c by {
            assert(t[j] == s[j + 1]);
        }
        if n - 1 < t.len() {
            assert(t[n - 1] == s[n]);
        }
        lemma_first_index_is(t, c, n - 1);
    }
}

/// `find_from` returns the least index at or after `from` where the needle
/// occurs, and `None` exactly when there is none.
pub proof fn lemma_find_from(hay: Seq<char>, needle: Seq<char>, from: int)
    requires
        0 <= from,
    ensures
        match find_from(hay, needle, from) {
            Some(i) => from <= i && occurs_at(hay, needle, i) && forall|j: int|
                from <= j < i ==> !occurs_at(hay, needle, j),
            None => forall|j: int| from <= j ==> !occurs_at(hay, needle, j),
        },
    decreases hay.len() - from,
{
    if from + needle.len() > hay.len() {
    } else if occurs_at(hay, needle, from) {
    } else if from >= hay.len() {
        assert(hay.subrange(from, from + needle.len()) == needle);
    } else {
        lemma_find_from(hay, needle, from + 1);
    }
}

/// A count of leading characters that satisfy `p` and stops at one that does
/// not is `prefix_len`.
pub proof fn lemma_prefix_len_is(s: Seq<char>, p: spec_fn(char) -> bool, n: int)
    requires
        0 <= n <= s.len(),
        forall|j: int| 0 <= j < n ==> p(#[trigger] s[j]),
        n < s.len() ==> !p(s[n]),
    ensures
        prefix_len(s, p) == n,
    decreases s.len(),
{
    if n > 0 {
        let t = s.drop_first();
        assert(p(s[0]));
        assert forall|j: int| 0 <= j < n - 1 implies p(#[trigger] t[j]) by {
            assert(t[j] == s[j + 1]);
        }
        if n - 1 < t.len() {
            assert(t[n - 1] == s[n]);
        }
        lemma_prefix_len_is(t, p, n - 1);
    }
}

/// A count of trailing characters that satisfy `p` and stops at one that does
/// not is `suffix_len`.
pub proof fn lemma_suffix_len_is(s: Seq<char>, p: spec_fn(char) -> bool, n: int)
    requires
        0 <= n <= s.len(),
        forall|j: int| s.len() - n <= j < s.len() ==> p(#[trigger] s[j]),
        n < s.len() ==> !p(s[s.len() - n - 1]),
    ensures
        suffix_len(s, p) == n,
    decreases s.len(),
{
    if n > 0 {
        let t = s.drop_last();
        assert(p(s[s.len() - 1]));
        assert forall|j: int| t.len() - (n - 1) <= j < t.len() implies p(#[trigger] t[j]) by {
            assert(t[j] == s[j]);
        }
        if n - 1 < t.len() {
            assert(t[t.len() - (n - 1) - 1] == s[s.len() - n - 1]);
        }
        lemma_suffix_len_is(t, p, n - 1);
    }
}

/// Tests whether `c` has the Unicode `White_Space` property.
pub fn char_is_whitespace(c: char) -> (r: bool)
    ensures
        r == is_whitespace(c),
{
    ('\u{9}' <= c && c <= '\u{D}') || c == ' ' || c == '\u{85}' || c == '\u{A0}' || c
        == '\u{1680}' || ('\u{2000}' <= c && c <= '\u{200A}') || c == '\u{2028}' || c
        == '\u{2029}' || c == '\u{202F}' || c == '\u{205F}' || c == '\u{3000}'
}

/// Tests whether `c` is whitespace, a double quote or a comma.
pub fn char_is_padding(c: char) -> (r: bool)
    ensures
        r == is_padding(c),
{
    char_is_whitespace(c) || c == '"' || c == ','
}

/// The characters of `s`, in order.
pub fn chars_of(s: &str) -> (r: Vec<char>)
    ensures
        r@ == s@,
{
    let mut out: Vec<char> = Vec::new();
    for c in it: s.chars()
        invariant
            it.seq() == s@,
            out@ == it.seq().take(it.index()),
    {
        out.push(c);
    }
    out
}

/// The string made of the characters of `v`, in order.
pub fn string_of(v: &Vec<char>) -> (r: String)
    ensures
        r@ == v@,
{
    let mut out = String::new();
    let mut i: usize = 0;
    while i < v.len()
        invariant
            i <= v.len(),
            out@ == v@.take(i as int),
        decreases v.len() - i,
    {
        out.push(v[i]);
        i += 1;
    }
    out
}

/// The characters of `v` from index `from` up to, not including, `to`.
pub fn slice(v: &Vec<char>, from: usize, to: usize) -> (r: Vec<char>)
    requires
        from <= to <= v.len(),
    ensures
        r@ == v@.subrange(from as int, to as int),
{
    let mut out: Vec<char> = Vec::new();
    let mut i: usize = from;
    while i < to
        invariant
            from <= i <= to <= v.len(),
            out@ == v@.subrange(from as int, i as int),
        decreases to - i,
    {
        out.push(v[i]);
        i += 1;
    }
    out
}

/// Whether the two vectors hold the same characters.
pub fn same(a: &Vec<char>, b: &Vec<char>) -> (r: bool)
    ensures
        r == (a@ == b@),
{
    if a.len() != b.len() {
        return false;
    }
    let mut i: usize = 0;
    while i < a.len()
        invariant
            i <= a.len() == b.len(),
            a@.take(i as int) == b@.take(i as int),
        decreases a.len() - i,
    {
        if a[i] != b[i] {
            return false;
        }
        assert(a@.take(i + 1) == a@.take(i as int).push(a@[i as int]));
        assert(b@.take(i + 1) == b@.take(i as int).push(b@[i as int]));
        i += 1;
    }
    assert(a@ == a@.take(a.len() as int));
    assert(b@ == b@.take(b.len() as int));
    true
}

/// Whether `v` spells the string `lit`.
pub fn is_text(v: &Vec<char>, lit: &str) -> (r: bool)
    ensures
        r == (v@ == lit@),
{
    let l = chars_of(lit);
    same(v, &l)
}

/// Whether `needle` occurs in `hay` at index `i`.
pub fn occurs_at_index(hay: &Vec<char>, needle: &Vec<char>, i: usize) -> (r: bool)
    ensures
        r == occurs_at(hay@, needle@, i as int),
{
    if needle.len() > hay.len() || i > hay.len() - needle.len() {
        return false;
    }
    let mut k: usize = 0;
    while k < needle.len()
        invariant
            k <= needle.len(),
            i + needle.len() <= hay.len(),
            hay@.subrange(i as int, i + k) == needle@.take(k as int),
        decreases needle.len() - k,
    {
        if hay[i + k] != needle[k] {
            assert(hay@.subrange(i as int, i + needle.len())[k as int] != needle@[k as int]);
            return false;
        }
        assert(hay@.subrange(i as int, i + k + 1) == hay@.subrange(i as int, i + k).push(
            hay@[i + k],
        ));
        assert(needle@.take(k + 1) == needle@.take(k as int).push(needle@[k as int]));
        k += 1;
    }
    assert(needle@ == needle@.take(needle.len() as int));
    true
}

/// The first index at or after `from` where `needle` occurs in `hay`.
pub fn find_from_index(hay: &Vec<char>, needle: &Vec<char>, from: usize) -> (r: Option<usize>)
    ensures
        match r {
            Some(i) => find_from(hay@, needle@, from as int) == Some(i as int),
            None => find_from(hay@, needle@, from as int) is None,
        },
{
    if needle.len() > hay.len() || from > hay.len() - needle.len() {
        return None;
    }
    if needle.len() == 0 {
        assert(hay@.subrange(from as int, from + needle.len()) == needle@);
        return Some(from);
    }
    let last: usize = hay.len() - needle.len();
    let mut i: usize = from;
    while i <= last
        invariant
            from <= i <= last + 1,
            last == hay.len() - needle.len(),
            needle.len() > 0,
            find_from(hay@, needle@, from as int) == find_from(hay@, needle@, i as int),
        decreases last + 1 - i,
    {
        if occurs_at_index(hay, needle, i) {
            return Some(i);
        }
        i += 1;
    }
    None
}

/// The first index where `needle` occurs in `hay`.
pub fn find_index(hay: &Vec<char>, needle: &Vec<char>) -> (r: Option<usize>)
    ensures
        match r {
            Some(i) => find(hay@, needle@) == Some(i as int),
            None => find(hay@, needle@) is None,
        },
{
    find_from_index(hay, needle, 0)
}

/// Whether `s` begins with `prefix`.
pub fn has_prefix(s: &Vec<char>, prefix: &Vec<char>) -> (r: bool)
    ensures
        r == starts_with(s@, prefix@),
{
    occurs_at_index(s, prefix, 0)
}

/// Whether `s` ends with `suffix`.
pub fn has_suffix(s: &Vec<char>, suffix: &Vec<char>) -> (r: bool)
    ensures
        r == ends_with(s@, suffix@),
{
    if suffix.len() > s.len() {
        return false;
    }
    occurs_at_index(s, suffix, s.len() - suffix.len())
}

/// `v` with every ASCII letter in upper case.
pub fn to_upper(v: &Vec<char>) -> (r: Vec<char>)
    ensures
        r@ == upper(v@),
{
    let mut out: Vec<char> = Vec::new();
    let mut i: usize = 0;
    while i < v.len()
        invariant
            i <= v.len(),
            out@ == upper(v@).take(i as int),
        decreases v.len() - i,
    {
        let c = v[i];
        let u = if 'a' <= c && c <= 'z' {
            ((c as u8) - 32) as char
        } else {
            c
        };
        out.push(u);
        i += 1;
    }
    out
}

/// `v` with every ASCII letter in lower case.
pub fn to_lower(v: &Vec<char>) -> (r: Vec<char>)
    ensures
        r@ == lower(v@),
{
    let mut out: Vec<char> = Vec::new();
    let mut i: usize = 0;
    while i < v.len()
        invariant
            i <= v.len(),
            out@ == lower(v@).take(i as int),
        decreases v.len() - i,
    {
        let c = v[i];
        let u = if 'A' <= c && c <= 'Z' {
            ((c as u8) + 32) as char
        } else {
            c
        };
        out.push(u);
        i += 1;
    }
    out
}

/// `v` without leading and trailing whitespace.
pub fn trimmed(v: &Vec<char>) -> (r: Vec<char>)
    ensures
        r@ == trim(v@),
{
    let mut a: usize = 0;
    while a < v.len() && char_is_whitespace(v[a])
        invariant
            a <= v.len(),
            forall|j: int| 0 <= j < a ==> is_whitespace(#[trigger] v@[j]),
        decreases v.len() - a,
    {
        a += 1;
    }
    let mut b: usize = v.len();
    while b > a && char_is_whitespace(v[b - 1])
        invariant
            a <= b <= v.len(),
            forall|j: int| b <= j < v.len() ==> is_whitespace(#[trigger] v@[j]),
        decreases b,
    {
        b -= 1;
    }
    proof {
        let p = whitespace();
        assert forall|j: int| 0 <= j < a implies p(#[trigger] v@[j]) by {
            assert(is_whitespace(v@[j]));
        }
        lemma_prefix_len_is(v@, p, a as int);
        let t = strip_front(v@, p);
        assert forall|j: int| t.len() - (v.len() - b) <= j < t.len() implies p(#[trigger] t[j]) by {
            assert(t[j] == v@[j + a]);
            assert(is_whitespace(v@[j + a]));
        }
        if v.len() - b < t.len() {
            assert(t[t.len() - (v.len() - b) - 1] == v@[b - 1]);
        }
        lemma_suffix_len_is(t, p, (v.len() - b) as int);
        assert(strip_back(t, p) == v@.subrange(a as int, b as int));
    }
    slice(v, a, b)
}

/// `v` without leading and trailing whitespace, double quotes and commas.
pub fn unpadded(v: &Vec<char>) -> (r: Vec<char>)
    ensures
        r@ == strip(v@, padding()),
{
    let mut a: usize = 0;
    while a < v.len() && char_is_padding(v[a])
        invariant
            a <= v.len(),
            forall|j: int| 0 <= j < a ==> is_padding(#[trigger] v@[j]),
        decreases v.len() - a,
    {
        a += 1;
    }
    let mut b: usize = v.len();
    while b > a && char_is_padding(v[b - 1])
        invariant
            a <= b <= v.len(),
            forall|j: int| b <= j < v.len() ==> is_padding(#[trigger] v@[j]),
        decreases b,
    {
        b -= 1;
    }
    proof {
        let p = padding();
        assert forall|j: int| 0 <= j < a implies p(#[trigger] v@[j]) by {
            assert(is_padding(v@[j]));
        }
        lemma_prefix_len_is(v@, p, a as int);
        let t = strip_front(v@, p);
        assert forall|j: int| t.len() - (v.len() - b) <= j < t.len() implies p(#[trigger] t[j]) by {
            assert(t[j] == v@[j + a]);
            assert(is_padding(v@[j + a]));
        }
        if v.len() - b < t.len() {
            assert(t[t.len() - (v.len() - b) - 1] == v@[b - 1]);
        }
        lemma_suffix_len_is(t, p, (v.len() - b) as int);
        assert(strip_back(t, p) == v@.subrange(a as int, b as int));
    }
    slice(v, a, b)
}

/// The index of the first `c` in `v` at or after `from`, or the length of
/// `v` where there is none.
pub fn index_of_char(v: &Vec<char>, c: char, from: usize) -> (r: usize)
    requires
        from <= v.len(),
    ensures
        r == from + first_index(v@.skip(from as int), c),
        from <= r <= v.len(),
{
    let mut i: usize = from;
    while i < v.len() && v[i] != c
        invariant
            from <= i <= v.len(),
            forall|j: int| from <= j < i ==> v@[j] != c,
        decreases v.len() - i,
    {
        i += 1;
    }
    proof {
        let t = v@.skip(from as int);
        assert forall|j: int| 0 <= j < i - from implies t[j] != c by {
            assert(t[j] == v@[j + from]);
        }
        lemma_first_index_is(t, c, i - from);
    }
    i
}

/// The views of the vectors of `pieces`.
pub open spec fn views(pieces: Seq<Vec<char>>) -> Seq<Seq<char>> {
    Seq::new(pieces.len(), |i: int| pieces[i]@)
}

/// The pieces of `v` between occurrences of `sep`.
pub fn split_on(v: &Vec<char>, sep: char) -> (r: Vec<Vec<char>>)
    ensures
        views(r@) == split(v@, sep),
{
    let mut out: Vec<Vec<char>> = Vec::new();
    let mut start: usize = 0;
    assert(v@.skip(0) == v@);
    assert(views(out@) + split(v@, sep) == split(v@, sep));
    loop
        invariant
            start <= v.len(),
            split(v@, sep) == views(out@) + split(v@.skip(start as int), sep),
        decreases v.len() - start,
    {
        let i = index_of_char(v, sep, start);
        let piece = slice(v, start, i);
        let ghost rest = v@.skip(start as int);
        let ghost before = views(out@);
        assert(rest.take(i - start) == v@.subrange(start as int, i as int));
        out.push(piece);
        assert(views(out@) == before + seq![rest.take(i - start)]);
        if i >= v.len() {
            assert(split(rest, sep) == seq![rest]);
            assert(rest.take(i - start) == rest);
            return out;
        }
        assert(rest.skip(i - start + 1) == v@.skip(i + 1));
        start = i + 1;
    }
}

/// The characters of `v` up to its first whitespace.
pub fn leading_word(v: &Vec<char>) -> (r: Vec<char>)
    ensures
        r@ == first_word(v@),
{
    let mut a: usize = 0;
    while a < v.len() && !char_is_whitespace(v[a])
        invariant
            a <= v.len(),
            forall|j: int| 0 <= j < a ==> !is_whitespace(#[trigger] v@[j]),
        decreases v.len() - a,
    {
        a += 1;
    }
    proof {
        let p = non_whitespace();
        assert forall|j: int| 0 <= j < a implies p(#[trigger] v@[j]) by {
            assert(!is_whitespace(v@[j]));
        }
        lemma_prefix_len_is(v@, p, a as int);
    }
    slice(v, 0, a)
}

/// `v` without its whitespace.
pub fn squeezed(v: &Vec<char>) -> (r: Vec<char>)
    ensures
        r@ == squeeze(v@),
{
    let mut out: Vec<char> = Vec::new();
    let mut i: usize = 0;
    while i < v.len()
        invariant
            i <= v.len(),
            out@ == squeeze(v@.take(i as int)),
        decreases v.len() - i,
    {
        assert(v@.take(i + 1).drop_last() == v@.take(i as int));
        if !char_is_whitespace(v[i]) {
            out.push(v[i]);
        }
        i += 1;
    }
    assert(v@.take(v.len() as int) == v@);
    out
}

/// The first `n` characters of `v`, or all of `v` where it is shorter.
pub fn leading(v: &Vec<char>, n: usize) -> (r: Vec<char>)
    ensures
        r@ == prefix(v@, n as nat),
{
    if v.len() <= n {
        let r = slice(v, 0, v.len());
        assert(v@.subrange(0, v.len() as int) == v@);
        r
    } else {
        slice(v, 0, n)
    }
}

/// The words of `v`.
pub fn split_words(v: &Vec<char>) -> (r: Vec<Vec<char>>)
    ensures
        views(r@) == words(v@),
{
    let mut out: Vec<Vec<char>> = Vec::new();
    let mut pos: usize = 0;
    assert(v@.skip(0) == v@);
    assert(views(out@) + words(v@) == words(v@));
    loop
        invariant
            pos <= v.len(),
            words(v@) == views(out@) + words(v@.skip(pos as int)),
        decreases v.len() - pos,
    {
        let ghost s = v@.skip(pos as int);
        let mut a: usize = pos;
        while a < v.len() && char_is_whitespace(v[a])
            invariant
                pos <= a <= v.len(),
                forall|j: int| pos <= j < a ==> is_whitespace(#[trigger] v@[j]),
            decreases v.len() - a,
        {
            a += 1;
        }
        proof {
            let p = whitespace();
            assert forall|j: int| 0 <= j < a - pos implies p(#[trigger] s[j]) by {
                assert(s[j] == v@[j + pos]);
                assert(is_whitespace(v@[j + pos]));
            }
            if a - pos < s.len() {
                assert(s[a - pos] == v@[a as int]);
            }
            lemma_prefix_len_is(s, p, a - pos);
            assert(strip_front(s, p) == v@.skip(a as int));
        }
        let ghost t = v@.skip(a as int);
        if a >= v.len() {
            assert(t.len() == 0);
            assert(words(s) == Seq::<Seq<char>>::empty());
            assert(views(out@) + Seq::<Seq<char>>::empty() == views(out@));
            return out;
        }
        let mut b: usize = a;
        while b < v.len() && !char_is_whitespace(v[b])
            invariant
                a <= b <= v.len(),
                forall|j: int| a <= j < b ==> !is_whitespace(#[trigger] v@[j]),
            decreases v.len() - b,
        {
            b += 1;
        }
        proof {
            let q = non_whitespace();
            assert forall|j: int| 0 <= j < b - a implies q(#[trigger] t[j]) by {
                assert(t[j] == v@[j + a]);
                assert(!is_whitespace(v@[j + a]));
            }
            if b - a < t.len() {
                assert(t[b - a] == v@[b as int]);
            }
            lemma_prefix_len_is(t, q, b - a);
            assert(first_word(t) == v@.subrange(a as int, b as int));
            assert(b > a);
            assert(t.skip(b - a) == v@.skip(b as int));
        }
        let ghost before = views(out@);
        let word = slice(v, a, b);
        out.push(word);
        assert(views(out@) == before + seq![first_word(t)]);
        pos = b;
    }
}

/// The lines of `v`.
pub fn split_lines(v: &Vec<char>) -> (r: Vec<Vec<char>>)
    ensures
        views(r@) == lines(v@),
{
    let mut pieces = split_on(v, '\n');
    assert(views(pieces@).len() == pieces@.len());
    if pieces.len() > 0 && pieces[pieces.len() - 1].len() == 0 {
        let ghost before = views(pieces@);
        assert(before.last() == pieces@[pieces.len() - 1]@);
        pieces.pop();
        assert(views(pieces@) == before.drop_last());
    }
    pieces
}

/// Appends the characters of `tail` to `v`.
pub fn push_all(v: &mut Vec<char>, tail: &Vec<char>)
    ensures
        final(v)@ == old(v)@ + tail@,
{
    let mut i: usize = 0;
    while i < tail.len()
        invariant
            i <= tail.len(),
            v@ == old(v)@ + tail@.take(i as int),
        decreases tail.len() - i,
    {
        v.push(tail[i]);
        i += 1;
    }
    assert(tail@.take(tail.len() as int) == tail@);
}

/// Appends the characters of the string `tail` to `v`.
pub fn push_text(v: &mut Vec<char>, tail: &str)
    ensures
        final(v)@ == old(v)@ + tail@,
{
    let t = chars_of(tail);
    push_all(v, &t);
}

} // verus!
