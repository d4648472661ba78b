//! The content of a tip: bytes, read as lines of text.
//!
//! A line ends at a line feed or at the end of the content. The line feed is
//! not part of the line, and an empty piece after the last line feed is no
//! line. A line whose bytes are not well-formed UTF-8 is left out.

use vstd::prelude::*;
use vstd::slice::slice_subrange;
use vstd::utf8::{decode_utf8, valid_utf8};

verus! {

/// The byte that ends a line.
pub const LINE_FEED: u8 = 0x0A;

/// How long the first line of `items` is: the number of items before the first
/// `feed`, or all of them where there is none.
pub open spec fn line_end<T>(items: Seq<T>, feed: T) -> nat
    decreases items.len(),
{
    if items.len() == 0 || items[0] == feed {
        0
    } else {
        1 + line_end(items.skip(1), feed)
    }
}

/// What is left of `items` after the first line and the `feed` that ends it.
pub open spec fn after_first_line<T>(items: Seq<T>, feed: T) -> Seq<T> {
    let end = line_end(items, feed) as int;
    if end < items.len() {
        items.skip(end + 1)
    } else {
        Seq::empty()
    }
}

/// The lines of `items`, in order: the pieces between one `feed` and the next,
/// without the `feed`. What follows the last `feed` is a line unless it is
/// empty.
pub open spec fn split_lines<T>(items: Seq<T>, feed: T) -> Seq<Seq<T>>
    decreases items.len(),
{
    if items.len() == 0 {
        Seq::empty()
    } else {
        seq![items.take(line_end(items, feed) as int)] + split_lines(
            after_first_line(items, feed),
            feed,
        )
    }
}

/// The lines of a content, as bytes.
pub open spec fn lines_of(content: Seq<u8>) -> Seq<Seq<u8>> {
    split_lines(content, LINE_FEED)
}

/// The lines of a text.
pub open spec fn lines_of_text(text: Seq<char>) -> Seq<Seq<char>> {
    split_lines(text, '\n')
}

/// The text of a line, where its bytes are well-formed UTF-8.
pub open spec fn decoded(line: Seq<u8>) -> Option<Seq<char>> {
    if valid_utf8(line) {
        Some(decode_utf8(line))
    } else {
        None
    }
}

/// The lines that can be read as text, in order, each as its text.
pub open spec fn readable(lines: Seq<Seq<u8>>) -> Seq<Seq<char>> {
    lines.filter_map(|line: Seq<u8>| decoded(line))
}

/// The first line of `items` ends at `k` when no `feed` stands before `k` and
/// one stands at `k`, or `items` ends there.
pub proof fn lemma_line_end<T>(items: Seq<T>, feed: T, k: int)
    requires
        0 <= k <= items.len(),
        forall|j: int| 0 <= j < k ==> items[j] != feed,
        k < items.len() ==> items[k] == feed,
    ensures
        line_end(items, feed) == k,
    decreases k,
{
    if k > 0 {
        let rest = items.skip(1);
        assert forall|j: int| 0 <= j < k - 1 implies rest[j] != feed by {
            assert(rest[j] == items[j + 1]);
        }
        lemma_line_end(rest, feed, k - 1);
    }
}

/// The first line ends within `items`, at a `feed` or at the end, and holds no
/// `feed`.
pub proof fn lemma_first_line<T>(items: Seq<T>, feed: T)
    ensures
        line_end(items, feed) <= items.len(),
        line_end(items, feed) < items.len() ==> items[line_end(items, feed) as int] == feed,
        forall|j: int| 0 <= j < line_end(items, feed) ==> items[j] != feed,
    decreases items.len(),
{
    if items.len() > 0 && items[0] != feed {
        let rest = items.skip(1);
        lemma_first_line(rest, feed);
        assert forall|j: int| 0 <= j < line_end(items, feed) implies items[j] != feed by {
            if j > 0 {
                assert(rest[j - 1] == items[j]);
            }
        }
    }
}

/// A line that holds no `feed`, then a `feed`, then more: the line is the first
/// line, and the lines of what follows are the others.
pub proof fn lemma_split_first<T>(line: Seq<T>, feed: T, rest: Seq<T>)
    requires
        forall|j: int| 0 <= j < line.len() ==> line[j] != feed,
    ensures
        split_lines(line + seq![feed] + rest, feed) == seq![line] + split_lines(rest, feed),
{
    let items = line + seq![feed] + rest;
    lemma_line_end(items, feed, line.len() as int);
    assert(items.take(line.len() as int) == line);
    assert(after_first_line(items, feed) == rest);
}

/// What holds no `feed` and is not empty is one line.
pub proof fn lemma_split_last<T>(line: Seq<T>, feed: T)
    requires
        line.len() > 0,
        forall|j: int| 0 <= j < line.len() ==> line[j] != feed,
    ensures
        split_lines(line, feed) == seq![line],
{
    lemma_line_end(line, feed, line.len() as int);
    assert(line.take(line.len() as int) == line);
    assert(split_lines(Seq::<T>::empty(), feed) == Seq::<Seq<T>>::empty());
    assert(seq![line] + Seq::<Seq<T>>::empty() == seq![line]);
}

/// Calls `core::str::from_utf8`. Taken on trust: there is a text exactly where
/// the bytes are well-formed UTF-8, and it is the text that they encode.
#[verifier::external_body]
fn decode(bytes: &[u8]) -> (text: Option<&str>)
    ensures
        text is Some <==> valid_utf8(bytes@),
        text is Some ==> text.unwrap()@ == decode_utf8(bytes@),
{
    core::str::from_utf8(bytes).ok()
}

/// Where the line that starts at `from` ends: the place of the next line feed,
/// or the length of the content.
fn line_end_from(content: &[u8], from: usize) -> (end: usize)
    requires
        from <= content.len(),
    ensures
        from <= end <= content.len(),
        end - from == line_end(content@.skip(from as int), LINE_FEED),
{
    let mut end: usize = from;
    while end < content.len() && content[end] != LINE_FEED
        invariant
            from <= end <= content.len(),
            forall|j: int| from <= j < end ==> content@[j] != LINE_FEED,
        decreases content.len() - end,
    {
        end = end + 1;
    }
    proof {
        lemma_line_end(content@.skip(from as int), LINE_FEED, end - from);
    }
    end
}

/// The lines of `content` that can be read as text, in the order of the content.
pub fn text_lines(content: &[u8]) -> (lines: Vec<String>)
    ensures
        lines.deep_view() == readable(lines_of(content@)),
{
    let mut lines: Vec<String> = Vec::new();
    let mut pos: usize = 0;
    let ghost mut done: Seq<Seq<u8>> = Seq::empty();
    assert(content@.skip(0) == content@);
    assert(lines.deep_view() == readable(done));
    while pos < content.len()
        invariant
            pos <= content.len(),
            done + lines_of(content@.skip(pos as int)) == lines_of(content@),
            lines.deep_view() == readable(done),
        decreases content.len() - pos,
    {
        let end = line_end_from(content, pos);
        let line = slice_subrange(content, pos, end);
        let ghost rest = content@.skip(pos as int);
        let ghost before = lines.deep_view();
        match decode(line) {
            Some(text) => {
                lines.push(text.to_owned());
                assert(lines.deep_view() == before + seq![decode_utf8(line@)]);
            },
            None => {},
        }
        proof {
            let next = after_first_line(rest, LINE_FEED);
            assert(line@ == rest.take(end - pos));
            assert(done.push(line@).drop_last() == done);
            assert(done + (seq![line@] + lines_of(next)) == done.push(line@) + lines_of(next));
            if end < content.len() {
                assert(next == content@.skip(end + 1));
            } else {
                assert(next == content@.skip(end as int));
            }
            done = done.push(line@);
        }
        pos = if end < content.len() {
            end + 1
        } else {
            end
        };
    }
    assert(done + Seq::empty() == done);
    lines
}

} // verus!
