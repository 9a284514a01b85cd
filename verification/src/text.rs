//! Character-level text operations with exact contracts over `Seq<char>`.
//!
//! Positions are counted in characters, not bytes. The operations whose
//! result depends on Unicode tables (case mapping, white space) are taken from
//! the standard library and appear in contracts under a name of their own.

use vstd::prelude::*;

verus! {

/// The lower-case form of a text, as `str::to_lowercase` computes it.
pub uninterp spec fn lowercase_of(s: Seq<char>) -> Seq<char>;

/// The upper-case form of a text, as `str::to_uppercase` computes it.
pub uninterp spec fn uppercase_of(s: Seq<char>) -> Seq<char>;

/// The maximal runs of non-white-space characters of a text, in order, as
/// `str::split_whitespace` yields them.
pub uninterp spec fn whitespace_words(s: Seq<char>) -> Seq<Seq<char>>;

/// A text without its leading and trailing white space, as `str::trim`
/// returns it.
pub uninterp spec fn trimmed(s: Seq<char>) -> Seq<char>;

/// The characters of each string of `v`, in order.
pub open spec fn texts(v: Seq<String>) -> Seq<Seq<char>> {
    Seq::new(v.len(), |i: int| v[i]@)
}

/// The characters of each string slice of `v`, in order.
pub open spec fn strs(v: Seq<&'static str>) -> Seq<Seq<char>> {
    Seq::new(v.len(), |i: int| v[i]@)
}

/// How often `key` occurs in `items`.
pub open spec fn occurrences(items: Seq<Seq<char>>, key: Seq<char>) -> nat
    decreases items.len(),
{
    if items.len() == 0 {
        0
    } else {
        occurrences(items.drop_last(), key) + if items.last() == key {
            1nat
        } else {
            0nat
        }
    }
}

/// Some member of `patterns` stands somewhere in `hay`.
pub open spec fn contains_any_of(hay: Seq<char>, patterns: Seq<Seq<char>>) -> bool {
    exists|i: int| 0 <= i < patterns.len() && contains_text(hay, patterns[i])
}

/// `hay` begins with some member of `patterns`.
pub open spec fn starts_with_any_of(hay: Seq<char>, patterns: Seq<Seq<char>>) -> bool {
    exists|i: int| 0 <= i < patterns.len() && has_prefix(hay, patterns[i])
}

/// Appends one character to a string.
///
/// Trusted: wraps `String::push`, documented to append the given character
/// to the end of the string.
#[verifier::external_body]
pub(crate) fn push_char(s: &mut String, c: char)
    ensures
        final(s)@ == old(s)@.push(c),
{
    s.push(c)
}

/// Lower-cases a text.
///
/// Trusted: wraps `str::to_lowercase`; the contract only names its result.
#[verifier::external_body]
pub(crate) fn to_lowercase(s: &str) -> (r: String)
    ensures
        r@ == lowercase_of(s@),
{
    s.to_lowercase()
}

/// Upper-cases a text.
///
/// Trusted: wraps `str::to_uppercase`; the contract only names its result.
#[verifier::external_body]
pub(crate) fn to_uppercase(s: &str) -> (r: String)
    ensures
        r@ == uppercase_of(s@),
{
    s.to_uppercase()
}

/// Splits a text at white space.
///
/// Trusted: wraps `str::split_whitespace` and copies each word into a
/// `String`; the contract only names the sequence of words.
#[verifier::external_body]
pub(crate) fn split_whitespace(s: &str) -> (words: Vec<String>)
    ensures
        texts(words@) == whitespace_words(s@),
{
    s.split_whitespace().map(String::from).collect()
}

/// Removes leading and trailing white space.
///
/// Trusted: wraps `str::trim`; the contract only names its result.
#[verifier::external_body]
pub(crate) fn trim(s: &str) -> (r: String)
    ensures
        r@ == trimmed(s@),
{
    s.trim().to_string()
}

/// The characters of `s`, in order.
pub fn chars_of(s: &str) -> (v: Vec<char>)
    ensures
        v@ == s@,
{
    let mut v: Vec<char> = Vec::new();
    for c in it: s.chars()
        invariant
            it.seq() == s@,
            v@ == it.seq().take(it.index()),
    {
        v.push(c);
    }
    v
}

/// The string made of the characters of `v`, in order.
pub fn string_of(v: &Vec<char>) -> (s: String)
    ensures
        s@ == v@,
{
    let mut s = String::new();
    let mut i: usize = 0;
    while i < v.len()
        invariant
            i <= v.len(),
            s@ == v@.take(i as int),
        decreases v.len() - i,
    {
        push_char(&mut s, v[i]);
        i += 1;
    }
    s
}

/// Appends the characters of `tail` to `out`.
pub fn append_chars(out: &mut Vec<char>, tail: &Vec<char>)
    ensures
        final(out)@ == old(out)@ + tail@,
{
    let mut i: usize = 0;
    while i < tail.len()
        invariant
            i <= tail.len(),
            out@ == old(out)@ + tail@.take(i as int),
        decreases tail.len() - i,
    {
        out.push(tail[i]);
        i += 1;
    }
}

/// `a` followed by `b`.
pub fn concat2(a: &str, b: &str) -> (r: String)
    ensures
        r@ == a@ + b@,
{
    let mut out = chars_of(a);
    let tail = chars_of(b);
    append_chars(&mut out, &tail);
    string_of(&out)
}

/// `a`, `b` and `c` in a row.
pub fn concat3(a: &str, b: &str, c: &str) -> (r: String)
    ensures
        r@ == a@ + b@ + c@,
{
    let ab = concat2(a, b);
    concat2(ab.as_str(), c)
}

/// Whether two texts hold the same characters.
pub fn same_text(a: &str, b: &str) -> (r: bool)
    ensures
        r == (a@ == b@),
{
    let x = chars_of(a);
    let y = chars_of(b);
    same_chars(&x, &y)
}

/// Whether two character vectors are equal.
pub fn same_chars(a: &Vec<char>, b: &Vec<char>) -> (r: bool)
    ensures
        r == (a@ == b@),
{
    if a.len() != b.len() {
        return false;
    }
    let mut i: usize = 0;
    while i < a.len()
        invariant
            i <= a.len(),
            a.len() == b.len(),
            a@.take(i as int) == b@.take(i as int),
        decreases a.len() - i,
    {
        if a[i] != b[i] {
            return false;
        }
        assert(a@.take(i + 1) == a@.take(i as int).push(a@[i as int]));
        assert(b@.take(i + 1) == b@.take(i as int).push(b@[i as int]));
        i += 1;
    }
    assert(a@.take(a.len() as int) == a@);
    assert(b@.take(b.len() as int) == b@);
    true
}

/// `needle` stands in `hay` at character position `at`.
pub open spec fn occurs_at(hay: Seq<char>, needle: Seq<char>, at: int) -> bool {
    &&& 0 <= at
    &&& at + needle.len() <= hay.len()
    &&& hay.subrange(at, at + needle.len()) == needle
}

/// `needle` stands somewhere in `hay`.
pub open spec fn contains_text(hay: Seq<char>, needle: Seq<char>) -> bool {
    exists|at: int| occurs_at(hay, needle, at)
}

/// `at` is the leftmost position at which `needle` stands in `hay`.
pub open spec fn is_first_occurrence(hay: Seq<char>, needle: Seq<char>, at: int) -> bool {
    &&& occurs_at(hay, needle, at)
    &&& forall|j: int| 0 <= j < at ==> !occurs_at(hay, needle, j)
}

/// The leftmost position of `needle` in `hay`, if there is one.
pub open spec fn first_occurrence(hay: Seq<char>, needle: Seq<char>) -> Option<int> {
    if contains_text(hay, needle) {
        Some(choose|at: int| is_first_occurrence(hay, needle, at))
    } else {
        None
    }
}

/// A leftmost occurrence is the one that `first_occurrence` names.
pub proof fn lemma_first_occurrence_unique(hay: Seq<char>, needle: Seq<char>, at: int)
    requires
        is_first_occurrence(hay, needle, at),
    ensures
        first_occurrence(hay, needle) == Some(at),
{
    let other = choose|k: int| is_first_occurrence(hay, needle, k);
    if other < at {
        assert(!occurs_at(hay, needle, other));
    }
    if at < other {
        assert(!occurs_at(hay, needle, at));
    }
}

/// `hay` begins with `needle`.
pub open spec fn has_prefix(hay: Seq<char>, needle: Seq<char>) -> bool {
    occurs_at(hay, needle, 0)
}

/// Whether `needle` stands in `hay` at `at`.
fn matches_at(hay: &Vec<char>, needle: &Vec<char>, at: usize) -> (r: bool)
    requires
        at + needle.len() <= hay.len(),
    ensures
        r == occurs_at(hay@, needle@, at as int),
{
    let mut k: usize = 0;
    while k < needle.len()
        invariant
            k <= needle.len(),
            at + needle.len() <= hay.len(),
            forall|j: int| 0 <= j < k ==> hay@[at + j] == needle@[j],
        decreases needle.len() - k,
    {
        if hay[at + k] != needle[k] {
            assert(hay@.subrange(at as int, at + needle.len())[k as int] != needle@[k as int]);
            return false;
        }
        k += 1;
    }
    assert(hay@.subrange(at as int, at + needle.len()) =~= needle@);
    true
}

/// The leftmost character position at which `needle` stands in `hay`.
pub fn find_chars(hay: &Vec<char>, needle: &Vec<char>) -> (r: Option<usize>)
    ensures
        r matches Some(at) ==> is_first_occurrence(hay@, needle@, at as int),
        r is None ==> !contains_text(hay@, needle@),
        r == match first_occurrence(hay@, needle@) {
            Some(at) => Some(at as usize),
            None => None,
        },
{
    if needle.len() > hay.len() {
        return None;
    }
    let last: usize = hay.len() - needle.len();
    let mut at: usize = 0;
    loop
        invariant
            last == hay.len() - needle.len(),
            at <= last,
            forall|j: int| 0 <= j < at ==> !occurs_at(hay@, needle@, j),
        decreases last - at,
    {
        if matches_at(hay, needle, at) {
            proof {
                lemma_first_occurrence_unique(hay@, needle@, at as int);
            }
            return Some(at);
        }
        if at == last {
            return None;
        }
        at += 1;
    }
}

/// The leftmost character position at which `needle` stands in `hay`.
pub fn find(hay: &str, needle: &str) -> (r: Option<usize>)
    ensures
        r matches Some(at) ==> is_first_occurrence(hay@, needle@, at as int),
        r is None ==> !contains_text(hay@, needle@),
{
    let h = chars_of(hay);
    let n = chars_of(needle);
    find_chars(&h, &n)
}

/// Whether `needle` stands somewhere in `hay`.
pub fn contains(hay: &str, needle: &str) -> (r: bool)
    ensures
        r == contains_text(hay@, needle@),
{
    let h = chars_of(hay);
    let n = chars_of(needle);
    find_chars(&h, &n).is_some()
}

/// Whether `hay` begins with `needle`.
pub fn starts_with(hay: &str, needle: &str) -> (r: bool)
    ensures
        r == has_prefix(hay@, needle@),
{
    let h = chars_of(hay);
    let n = chars_of(needle);
    if n.len() > h.len() {
        false
    } else {
        matches_at(&h, &n, 0)
    }
}

/// Whether some member of `patterns` stands somewhere in `hay`.
pub fn contains_any(hay: &str, patterns: &Vec<&'static str>) -> (r: bool)
    ensures
        r == contains_any_of(hay@, strs(patterns@)),
{
    let mut i: usize = 0;
    while i < patterns.len()
        invariant
            i <= patterns.len(),
            forall|j: int| 0 <= j < i ==> !contains_text(hay@, strs(patterns@)[j]),
        decreases patterns.len() - i,
    {
        if contains(hay, patterns[i]) {
            assert(contains_text(hay@, strs(patterns@)[i as int]));
            return true;
        }
        i += 1;
    }
    false
}

/// Whether `hay` begins with some member of `patterns`.
pub fn starts_with_any(hay: &str, patterns: &Vec<&'static str>) -> (r: bool)
    ensures
        r == starts_with_any_of(hay@, strs(patterns@)),
{
    let mut i: usize = 0;
    while i < patterns.len()
        invariant
            i <= patterns.len(),
            forall|j: int| 0 <= j < i ==> !has_prefix(hay@, strs(patterns@)[j]),
        decreases patterns.len() - i,
    {
        if starts_with(hay, patterns[i]) {
            assert(has_prefix(hay@, strs(patterns@)[i as int]));
            return true;
        }
        i += 1;
    }
    false
}

/// Whether the character `c` occurs in `hay`.
pub fn contains_char(hay: &str, c: char) -> (r: bool)
    ensures
        r == hay@.contains(c),
{
    let h = chars_of(hay);
    let mut i: usize = 0;
    while i < h.len()
        invariant
            i <= h.len(),
            h@ == hay@,
            forall|j: int| 0 <= j < i ==> h@[j] != c,
        decreases h.len() - i,
    {
        if h[i] == c {
            assert(hay@[i as int] == c);
            return true;
        }
        i += 1;
    }
    false
}

/// `text` with its leftmost occurrence of `pattern` replaced by `with`;
/// `text` itself where `pattern` does not occur.
pub open spec fn replace_first_spec(text: Seq<char>, pattern: Seq<char>, with: Seq<char>) -> Seq<
    char,
> {
    match first_occurrence(text, pattern) {
        Some(at) => text.take(at) + with + text.skip(at + pattern.len()),
        None => text,
    }
}

/// Replaces the leftmost occurrence of `pattern` in `text` by `with`.
pub fn replace_first(text: &str, pattern: &str, with: &str) -> (r: String)
    ensures
        r@ == replace_first_spec(text@, pattern@, with@),
{
    let t = chars_of(text);
    let p = chars_of(pattern);
    let w = chars_of(with);
    match find_chars(&t, &p) {
        None => string_of(&t),
        Some(at) => {
            let mut out: Vec<char> = Vec::new();
            let mut i: usize = 0;
            while i < at
                invariant
                    i <= at <= t.len(),
                    out@ == t@.take(i as int),
                decreases at - i,
            {
                out.push(t[i]);
                i += 1;
            }
            append_chars(&mut out, &w);
            let mut k: usize = at + p.len();
            while k < t.len()
                invariant
                    at + p.len() <= k <= t.len(),
                    out@ == t@.take(at as int) + w@ + t@.subrange(at + p.len(), k as int),
                decreases t.len() - k,
            {
                out.push(t[k]);
                k += 1;
            }
            assert(t@.subrange(at + p.len(), t.len() as int) == t@.skip(at + p.len()));
            string_of(&out)
        },
    }
}

/// `text` from position `from` on, with every occurrence of `pattern`
/// replaced by `with`, scanning from left to right without overlap. An empty
/// pattern replaces nothing.
pub open spec fn replace_all_from(
    text: Seq<char>,
    pattern: Seq<char>,
    with: Seq<char>,
    from: int,
) -> Seq<char>
    decreases text.len() - from,
{
    if from < 0 || from >= text.len() || pattern.len() == 0 {
        text.skip(from)
    } else if occurs_at(text, pattern, from) {
        with + replace_all_from(text, pattern, with, from + pattern.len())
    } else {
        seq![text[from]] + replace_all_from(text, pattern, with, from + 1)
    }
}

/// The marker that a template holds where a value is to be put.
pub open spec fn placeholder() -> Seq<char> {
    seq!['{', '}']
}

/// A template with each `{}` replaced by `value`.
pub open spec fn filled(template: Seq<char>, value: Seq<char>) -> Seq<char> {
    replace_all_from(template, placeholder(), value, 0)
}

/// Puts `value` in the place of each `{}` of `template`.
pub fn fill_placeholder(template: &str, value: &str) -> (r: String)
    ensures
        r@ == filled(template@, value@),
{
    let t = chars_of(template);
    let w = chars_of(value);
    let mut p: Vec<char> = Vec::new();
    p.push('{');
    p.push('}');
    assert(p@ == placeholder());
    let mut out: Vec<char> = Vec::new();
    let mut i: usize = 0;
    while i < t.len()
        invariant
            i <= t.len(),
            p@ == placeholder(),
            out@ + replace_all_from(t@, p@, w@, i as int) == filled(t@, w@),
        decreases t.len() - i,
    {
        let ghost before = out@;
        if t.len() - i >= 2 && matches_at(&t, &p, i) {
            append_chars(&mut out, &w);
            assert(out@ + replace_all_from(t@, p@, w@, i + 2) == before + (w@ + replace_all_from(
                t@,
                p@,
                w@,
                i + 2,
            )));
            i += 2;
        } else {
            assert(!occurs_at(t@, p@, i as int));
            out.push(t[i]);
            assert(out@ + replace_all_from(t@, p@, w@, i + 1) == before + (seq![t@[i as int]]
                + replace_all_from(t@, p@, w@, i + 1)));
            i += 1;
        }
    }
    assert(out@ + Seq::<char>::empty() == out@);
    string_of(&out)
}

/// An ASCII letter or digit.
pub open spec fn is_alphanumeric(c: char) -> bool {
    ('0' <= c && c <= '9') || ('A' <= c && c <= 'Z') || ('a' <= c && c <= 'z')
}

/// Whether `c` is an ASCII letter or digit.
pub fn char_is_alphanumeric(c: char) -> (r: bool)
    ensures
        r == is_alphanumeric(c),
{
    ('0' <= c && c <= '9') || ('A' <= c && c <= 'Z') || ('a' <= c && c <= 'z')
}

/// An ASCII letter, an ASCII digit or the underscore.
pub open spec fn is_word_char(c: char) -> bool {
    is_alphanumeric(c) || c == '_'
}

/// `s` without the characters at its end that are no ASCII letter or digit.
pub open spec fn without_trailing_marks(s: Seq<char>) -> Seq<char>
    decreases s.len(),
{
    if s.len() > 0 && !is_alphanumeric(s.last()) {
        without_trailing_marks(s.drop_last())
    } else {
        s
    }
}

/// `s` without the characters at its end that are no word character.
pub open spec fn without_trailing_non_word(s: Seq<char>) -> Seq<char>
    decreases s.len(),
{
    if s.len() > 0 && !is_word_char(s.last()) {
        without_trailing_non_word(s.drop_last())
    } else {
        s
    }
}

/// `s` without the characters at its start that are no word character.
pub open spec fn without_leading_non_word(s: Seq<char>) -> Seq<char>
    decreases s.len(),
{
    if s.len() > 0 && !is_word_char(s[0]) {
        without_leading_non_word(s.drop_first())
    } else {
        s
    }
}

/// `s` without the characters at either end that are no word character.
pub open spec fn bare_word(s: Seq<char>) -> Seq<char> {
    without_trailing_non_word(without_leading_non_word(s))
}

/// The characters of `v` from `from` up to, not including, `to`.
pub fn slice_chars(v: &Vec<char>, from: usize, to: usize) -> (r: Vec<char>)
    requires
        from <= to <= v.len(),
    ensures
        r@ == v@.subrange(from as int, to as int),
{
    let mut out: Vec<char> = Vec::new();
    let mut i: usize = from;
    while i < to
        invariant
            from <= i <= to <= v.len(),
            out@ == v@.subrange(from as int, i as int),
        decreases to - i,
    {
        out.push(v[i]);
        i += 1;
    }
    out
}

/// Strips from the end of `v` what is no ASCII letter or digit.
pub fn trim_trailing_marks(v: &Vec<char>) -> (r: Vec<char>)
    ensures
        r@ == without_trailing_marks(v@),
{
    let mut end: usize = v.len();
    assert(v@.take(end as int) == v@);
    while end > 0 && !char_is_alphanumeric(v[end - 1])
        invariant
            end <= v.len(),
            without_trailing_marks(v@) == without_trailing_marks(v@.take(end as int)),
        decreases end,
    {
        assert(v@.take(end as int).drop_last() == v@.take(end - 1));
        end -= 1;
    }
    let r = slice_chars(v, 0, end);
    assert(v@.subrange(0, end as int) == v@.take(end as int));
    r
}

/// Strips from both ends of `v` what is no word character.
pub fn trim_to_bare_word(v: &Vec<char>) -> (r: Vec<char>)
    ensures
        r@ == bare_word(v@),
{
    let mut start: usize = 0;
    assert(v@.skip(0) == v@);
    while start < v.len() && !char_is_word(v[start])
        invariant
            start <= v.len(),
            without_leading_non_word(v@) == without_leading_non_word(v@.skip(start as int)),
        decreases v.len() - start,
    {
        assert(v@.skip(start as int).drop_first() == v@.skip(start + 1));
        start += 1;
    }
    let ghost inner = v@.skip(start as int);
    assert(without_leading_non_word(v@) == inner);
    let mut end: usize = v.len();
    assert(inner.take(inner.len() as int) == inner);
    while end > start && !char_is_word(v[end - 1])
        invariant
            start <= end <= v.len(),
            inner == v@.skip(start as int),
            without_trailing_non_word(inner) == without_trailing_non_word(
                inner.take(end - start),
            ),
        decreases end,
    {
        assert(inner.take(end - start).drop_last() == inner.take(end - start - 1));
        assert(inner.take(end - start).last() == v@[end - 1]);
        end -= 1;
    }
    let r = slice_chars(v, start, end);
    assert(v@.subrange(start as int, end as int) == inner.take(end - start));
    r
}

/// Whether `c` is an ASCII letter, an ASCII digit or the underscore.
pub fn char_is_word(c: char) -> (r: bool)
    ensures
        r == is_word_char(c),
{
    char_is_alphanumeric(c) || c == '_'
}

/// The code of `c` with the ASCII capitals mapped to their small letters.
pub open spec fn folded_code(c: char) -> int {
    if 'A' <= c && c <= 'Z' {
        c as int + 32
    } else {
        c as int
    }
}

/// Two texts are equal up to the case of their ASCII letters.
pub open spec fn equal_ignoring_ascii_case(a: Seq<char>, b: Seq<char>) -> bool {
    &&& a.len() == b.len()
    &&& forall|i: int| 0 <= i < a.len() ==> folded_code(a[i]) == folded_code(b[i])
}

/// The code of `c` with the ASCII capitals mapped to their small letters.
fn fold_code(c: char) -> (r: u32)
    ensures
        r == folded_code(c),
{
    if 'A' <= c && c <= 'Z' {
        c as u32 + 32
    } else {
        c as u32
    }
}

/// Whether two texts are equal up to the case of their ASCII letters.
pub fn eq_ignore_ascii_case(a: &str, b: &str) -> (r: bool)
    ensures
        r == equal_ignoring_ascii_case(a@, b@),
{
    let x = chars_of(a);
    let y = chars_of(b);
    if x.len() != y.len() {
        return false;
    }
    let mut i: usize = 0;
    while i < x.len()
        invariant
            i <= x.len(),
            x.len() == y.len(),
            x@ == a@,
            y@ == b@,
            forall|j: int| 0 <= j < i ==> folded_code(x@[j]) == folded_code(y@[j]),
        decreases x.len() - i,
    {
        if fold_code(x[i]) != fold_code(y[i]) {
            assert(folded_code(a@[i as int]) != folded_code(b@[i as int]));
            return false;
        }
        i += 1;
    }
    true
}

/// The words `words[start]`, `words[start + 1]`, ... `words[start + count - 1]`
/// with one space between neighbours.
pub open spec fn joined(words: Seq<Seq<char>>, start: int, count: nat) -> Seq<char>
    decreases count,
{
    if count == 0 {
        Seq::empty()
    } else if count == 1 {
        words[start]
    } else {
        joined(words, start, (count - 1) as nat) + seq![' '] + words[start + count - 1]
    }
}

/// Joins `count` words from `start` on with single spaces.
pub fn join_words(words: &Vec<String>, start: usize, count: usize) -> (r: String)
    requires
        start + count <= words.len(),
    ensures
        r@ == joined(texts(words@), start as int, count as nat),
{
    let mut out: Vec<char> = Vec::new();
    let mut k: usize = 0;
    while k < count
        invariant
            k <= count,
            start + count <= words.len(),
            out@ == joined(texts(words@), start as int, k as nat),
        decreases count - k,
    {
        if k > 0 {
            out.push(' ');
        }
        let w = chars_of(words[start + k].as_str());
        append_chars(&mut out, &w);
        assert(texts(words@)[start + k] == w@);
        k += 1;
    }
    string_of(&out)
}

/// The decimal digit that stands for `d`.
pub open spec fn digit_char(d: nat) -> char {
    if d == 0 {
        '0'
    } else if d == 1 {
        '1'
    } else if d == 2 {
        '2'
    } else if d == 3 {
        '3'
    } else if d == 4 {
        '4'
    } else if d == 5 {
        '5'
    } else if d == 6 {
        '6'
    } else if d == 7 {
        '7'
    } else if d == 8 {
        '8'
    } else {
        '9'
    }
}

/// The decimal numeral of `n`, without leading zeros.
pub open spec fn decimal(n: nat) -> Seq<char>
    decreases n,
{
    if n < 10 {
        seq![digit_char(n)]
    } else {
        decimal(n / 10).push(digit_char(n % 10))
    }
}

/// The decimal digit that stands for `d`.
fn digit(d: u64) -> (c: char)
    requires
        d < 10,
    ensures
        c == digit_char(d as nat),
{
    if d == 0 {
        '0'
    } else if d == 1 {
        '1'
    } else if d == 2 {
        '2'
    } else if d == 3 {
        '3'
    } else if d == 4 {
        '4'
    } else if d == 5 {
        '5'
    } else if d == 6 {
        '6'
    } else if d == 7 {
        '7'
    } else if d == 8 {
        '8'
    } else {
        '9'
    }
}

/// The decimal numeral of `n`.
pub fn decimal_chars(n: u64) -> (r: Vec<char>)
    ensures
        r@ == decimal(n as nat),
    decreases n,
{
    if n < 10 {
        let mut v: Vec<char> = Vec::new();
        v.push(digit(n));
        v
    } else {
        let mut v = decimal_chars(n / 10);
        v.push(digit(n % 10));
        v
    }
}

/// The decimal numeral of `n`.
pub fn decimal_string(n: u64) -> (r: String)
    ensures
        r@ == decimal(n as nat),
{
    let v = decimal_chars(n);
    string_of(&v)
}

/// The value of the decimal digit `c`, if it is one.
pub open spec fn digit_value(c: char) -> Option<nat> {
    if '0' <= c && c <= '9' {
        Some((c as nat - '0' as nat) as nat)
    } else {
        None
    }
}

/// Every character of `s` is a decimal digit.
pub open spec fn all_digits(s: Seq<char>) -> bool {
    forall|i: int| 0 <= i < s.len() ==> digit_value(#[trigger] s[i]) is Some
}

/// The number that the digits of `s` spell.
pub open spec fn digits_value(s: Seq<char>) -> nat
    decreases s.len(),
{
    if s.len() == 0 {
        0
    } else {
        digits_value(s.drop_last()) * 10 + match digit_value(s.last()) {
            Some(d) => d,
            None => 0,
        }
    }
}

/// The digits of an unsigned numeral: the text itself, or what follows its
/// leading `+`.
pub open spec fn numeral_digits(s: Seq<char>) -> Seq<char> {
    if s.len() > 0 && s[0] == '+' {
        s.skip(1)
    } else {
        s
    }
}

/// The number that `s` denotes as an unsigned 64-bit numeral: an optional
/// `+` and then at least one decimal digit, with a value that fits.
pub open spec fn parsed_u64(s: Seq<char>) -> Option<u64> {
    let d = numeral_digits(s);
    if d.len() > 0 && all_digits(d) && digits_value(d) <= u64::MAX {
        Some(digits_value(d) as u64)
    } else {
        None
    }
}

/// The value of a numeral does not shrink when digits are appended.
proof fn lemma_digits_value_grows(s: Seq<char>, k: int)
    requires
        0 <= k <= s.len(),
    ensures
        digits_value(s.take(k)) <= digits_value(s),
    decreases s.len() - k,
{
    if k == s.len() {
        assert(s.take(k) =~= s);
    } else {
        lemma_digits_value_grows(s, k + 1);
        assert(s.take(k + 1).drop_last() =~= s.take(k));
    }
}

/// Reads an unsigned 64-bit numeral.
pub fn parse_u64(s: &str) -> (r: Option<u64>)
    ensures
        r == parsed_u64(s@),
{
    let v = chars_of(s);
    let start: usize = if v.len() > 0 && v[0] == '+' {
        1
    } else {
        0
    };
    let ghost d = numeral_digits(s@);
    assert(d =~= v@.skip(start as int));
    if start == v.len() {
        return None;
    }
    let mut n: u64 = 0;
    let mut i: usize = start;
    assert(d.take(0) =~= Seq::<char>::empty());
    while i < v.len()
        invariant
            start <= i <= v.len(),
            d == v@.skip(start as int),
            d == numeral_digits(s@),
            d.len() == v.len() - start,
            n == digits_value(d.take(i - start)),
            all_digits(d.take(i - start)),
        decreases v.len() - i,
    {
        let c = v[i];
        assert(d[i - start] == c);
        if !('0' <= c && c <= '9') {
            assert(digit_value(d[i - start]) is None);
            return None;
        }
        let digit: u64 = (c as u32 - '0' as u32) as u64;
        assert(d.take(i - start + 1).drop_last() =~= d.take(i - start));
        assert(d.take(i - start + 1).last() == c);
        assert(digits_value(d.take(i - start + 1)) == n * 10 + digit);
        if n > (u64::MAX - digit) / 10 {
            proof {
                lemma_digits_value_grows(d, i - start + 1);
            }
            return None;
        }
        n = n * 10 + digit;
        assert forall|k: int| 0 <= k < d.take(i - start + 1).len() implies digit_value(
            #[trigger] d.take(i - start + 1)[k],
        ) is Some by {
            if k < i - start {
                assert(d.take(i - start)[k] == d.take(i - start + 1)[k]);
            }
        }
        i += 1;
    }
    assert(d.take(d.len() as int) =~= d);
    Some(n)
}

} // verus!
