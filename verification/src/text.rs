//! Text as sequences of characters: white space at the end of a line, and the
//! search for one piece of text inside another.

use vstd::prelude::*;

verus! {

/// Whether `c` is white space: one of the twenty-five code points that carry the
/// Unicode property `White_Space`.
pub open spec fn white_space(c: char) -> bool {
    let n = c as u32;
    ||| 0x09 <= n <= 0x0D
    ||| n == 0x20
    ||| n == 0x85
    ||| n == 0xA0
    ||| n == 0x1680
    ||| 0x2000 <= n <= 0x200A
    ||| n == 0x2028
    ||| n == 0x2029
    ||| n == 0x202F
    ||| n == 0x205F
    ||| n == 0x3000
}

/// `s` without the white space at its end. White space elsewhere stays.
pub open spec fn trimmed(s: Seq<char>) -> Seq<char>
    decreases s.len(),
{
    if s.len() > 0 && white_space(s.last()) {
        trimmed(s.drop_last())
    } else {
        s
    }
}

/// Whether `needle` stands in `hay` from position `at` on.
pub open spec fn occurs_at(needle: Seq<char>, hay: Seq<char>, at: int) -> bool {
    &&& 0 <= at
    &&& at + needle.len() <= hay.len()
    &&& hay.subrange(at, at + needle.len()) == needle
}

/// Whether `needle` stands somewhere in `hay`, character for character.
pub open spec fn occurs_in(needle: Seq<char>, hay: Seq<char>) -> bool {
    exists|at: int| occurs_at(needle, hay, at)
}

/// Whether `text` passes the filter: there is no query, or the query stands
/// somewhere in `text`.
pub open spec fn passes(text: Seq<char>, query: Option<Seq<char>>) -> bool {
    match query {
        Some(q) => occurs_in(q, text),
        None => true,
    }
}

/// Tells whether a character is white space.
pub fn is_whitespace(c: char) -> (b: bool)
    ensures
        b == white_space(c),
{
    let n: u32 = c as u32;
    (0x09 <= n && n <= 0x0D) || n == 0x20 || n == 0x85 || n == 0xA0 || n == 0x1680 || (0x2000 <= n
        && n <= 0x200A) || n == 0x2028 || n == 0x2029 || n == 0x202F || n == 0x205F || n == 0x3000
}

/// The characters of `s`, one by one.
pub(crate) fn chars_of(s: &str) -> (v: Vec<char>)
    ensures
        v@ == s@,
{
    let mut v: Vec<char> = Vec::new();
    for c in it: s.chars()
        invariant
            it.seq() == s@,
            v@ == s@.take(it.index() as int),
    {
        v.push(c);
    }
    v
}

/// How many characters of `chars` are left when the white space at its end is
/// taken away.
fn trimmed_len(chars: &Vec<char>) -> (n: usize)
    ensures
        n <= chars.len(),
        chars@.take(n as int) == trimmed(chars@),
{
    let mut n: usize = chars.len();
    assert(chars@.take(n as int) == chars@);
    while n > 0 && is_whitespace(chars[n - 1])
        invariant
            n <= chars.len(),
            trimmed(chars@.take(n as int)) == trimmed(chars@),
        decreases n,
    {
        assert(chars@.take(n as int).drop_last() == chars@.take(n as int - 1));
        n = n - 1;
    }
    n
}

/// The line without the white space at its end.
pub fn trim_end(line: &str) -> (r: &str)
    ensures
        r@ == trimmed(line@),
{
    let chars = chars_of(line);
    let n = trimmed_len(&chars);
    line.substring_char(0, n)
}

/// Whether `needle` stands in `hay` from position `at` on.
pub(crate) fn starts_at(hay: &Vec<char>, needle: &Vec<char>, at: usize) -> (b: bool)
    requires
        at + needle.len() <= hay.len(),
    ensures
        b == occurs_at(needle@, hay@, at as int),
{
    let mut k: usize = 0;
    while k < needle.len()
        invariant
            at + needle.len() <= hay.len(),
            k <= needle.len(),
            hay@.subrange(at as int, at + k) == needle@.take(k as int),
        decreases needle.len() - k,
    {
        if hay[at + k] != needle[k] {
            assert(hay@.subrange(at as int, at + needle.len())[k as int] != needle@[k as int]);
            return false;
        }
        assert(hay@.subrange(at as int, at + k + 1) == hay@.subrange(at as int, at + k).push(
            hay@[at + k],
        ));
        assert(needle@.take(k + 1) == needle@.take(k as int).push(needle@[k as int]));
        k = k + 1;
    }
    assert(needle@.take(k as int) == needle@);
    true
}

/// Whether `needle` stands somewhere in `hay`.
fn contains_chars(hay: &Vec<char>, needle: &Vec<char>) -> (found: bool)
    ensures
        found == occurs_in(needle@, hay@),
{
    if needle.len() > hay.len() {
        return false;
    }
    let last: usize = hay.len() - needle.len();
    let mut at: usize = 0;
    loop
        invariant
            last == hay.len() - needle.len(),
            at <= last,
            forall|j: int| 0 <= j < at ==> !occurs_at(needle@, hay@, j),
        decreases last - at,
    {
        if starts_at(hay, needle, at) {
            return true;
        }
        if at == last {
            return false;
        }
        at = at + 1;
    }
}

/// Whether `needle` stands somewhere in `haystack`. The comparison is by
/// character, with no pattern syntax and no folding of case; the empty text
/// stands in every text.
pub fn contains(haystack: &str, needle: &str) -> (found: bool)
    ensures
        found == occurs_in(needle@, haystack@),
{
    let hay = chars_of(haystack);
    let pattern = chars_of(needle);
    contains_chars(&hay, &pattern)
}

/// Whether `text` passes the filter that `query` sets, if it sets one.
pub fn passes_query(text: &str, query: &Option<String>) -> (b: bool)
    ensures
        b == passes(text@, query.deep_view()),
{
    match query {
        Some(q) => contains(text, q.as_str()),
        None => true,
    }
}

/// What `trimmed` leaves is the beginning of the text up to its last character
/// that is no white space: nothing but white space is taken away, and none is
/// left at the end.
pub proof fn lemma_trimmed(text: Seq<char>)
    ensures
        trimmed(text).len() <= text.len(),
        trimmed(text) == text.take(trimmed(text).len() as int),
        forall|j: int| trimmed(text).len() <= j < text.len() ==> white_space(text[j]),
        trimmed(text).len() > 0 ==> !white_space(trimmed(text).last()),
    decreases text.len(),
{
    if text.len() > 0 && white_space(text.last()) {
        let shorter = text.drop_last();
        lemma_trimmed(shorter);
        assert(shorter.take(trimmed(shorter).len() as int) == text.take(
            trimmed(shorter).len() as int,
        ));
        assert forall|j: int| trimmed(text).len() <= j < text.len() implies white_space(
            text[j],
        ) by {
            if j < shorter.len() {
                assert(text[j] == shorter[j]);
            }
        }
    } else {
        assert(text.take(text.len() as int) == text);
    }
}

/// White space at the end of a line is taken away, and only that: of a text
/// that does not end in white space, followed by white space, the text is
/// left, with the white space that it begins with or holds.
pub proof fn lemma_white_space_at_the_end_goes(text: Seq<char>, space: Seq<char>)
    requires
        text.len() > 0 ==> !white_space(text.last()),
        forall|j: int| 0 <= j < space.len() ==> white_space(space[j]),
    ensures
        trimmed(text + space) == text,
    decreases space.len(),
{
    if space.len() == 0 {
        assert(text + space == text);
    } else {
        let shorter = space.drop_last();
        assert((text + space).drop_last() == text + shorter);
        lemma_white_space_at_the_end_goes(text, shorter);
    }
}

} // verus!
