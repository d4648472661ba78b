//! What holds of listing as a whole: of the names under which tips are found,
//! of the lines that are shown, and of a text that is written to a tip and
//! listed again.

use crate::encoding::{lemma_encode_concat, lemma_encode_feed, lemma_encode_no_feed};
use crate::lines::{
    after_first_line, decoded, lemma_first_line, lemma_split_first, lemma_split_last, line_end,
    lines_of, lines_of_text, readable, split_lines, LINE_FEED,
};
use crate::lister::{
    last_dot, lemma_last_dot, lemma_last_dot_is_last, listed_name, shown_line, shown_lines,
    tip_lines, tip_listing, tip_names, tip_stem, TipFile,
};
use crate::location::tip_file_name;
use crate::sequences::{lemma_filter_map_concat, lemma_filter_map_membership};
use crate::text::{passes, trimmed};
use vstd::prelude::*;
use vstd::utf8::{encode_utf8, encode_utf8_decode_utf8, encode_utf8_valid_utf8};

verus! {

/// A file holds a tip exactly where its name ends in `.tips` and something
/// stands before that; the name of the tip is what stands before.
pub proof fn lemma_tips_end_in_the_extension(file_name: Seq<char>)
    ensures
        tip_stem(file_name) == (if file_name.len() > 5 && file_name.skip(file_name.len() - 5)
            == ".tips"@ {
            Some(file_name.take(file_name.len() - 5))
        } else {
            None
        }),
{
    reveal_strlit(".tips");
    reveal_strlit("tips");
    let len = file_name.len() as int;
    lemma_last_dot_is_last(file_name);
    if len > 5 && file_name.skip(len - 5) == ".tips"@ {
        let end = file_name.skip(len - 5);
        assert forall|j: int| len - 5 < j < len implies file_name[j] != '.' by {
            assert(file_name[j] == end[j - (len - 5)]);
        }
        assert(file_name[len - 5] == end[0]);
        lemma_last_dot(file_name, len - 5);
        assert(file_name.skip(len - 4) == "tips"@) by {
            let ext = file_name.skip(len - 4);
            assert forall|j: int| 0 <= j < 4 implies ext[j] == "tips"@[j] by {
                assert(ext[j] == end[j + 1]);
            }
        }
    } else if tip_stem(file_name) is Some {
        let dot = last_dot(file_name);
        let ext = file_name.skip(dot + 1);
        assert(ext.len() == 4);
        let end = file_name.skip(len - 5);
        assert forall|j: int| 0 <= j < 5 implies end[j] == ".tips"@[j] by {
            if j > 0 {
                assert(end[j] == ext[j - 1]);
            }
        }
        assert(end == ".tips"@);
    }
}

/// The file that is written for a tip holds that tip: a name that is not empty,
/// made into a file name, is found again as the name of the tip.
pub proof fn lemma_tip_file_holds_the_tip(name: Seq<char>)
    requires
        name.len() > 0,
    ensures
        tip_stem(tip_file_name(name)) == Some(name),
{
    reveal_strlit(".tips");
    let file_name = tip_file_name(name);
    lemma_tips_end_in_the_extension(file_name);
    assert(file_name.skip(file_name.len() - 5) == ".tips"@);
    assert(file_name.take(file_name.len() - 5) == name);
}

/// A name is listed exactly where it passes the query and some entry of the
/// directory holds the tip of that name. An entry that holds no tip adds no
/// name.
pub proof fn lemma_listed_names(entries: Seq<Seq<char>>, query: Option<Seq<char>>, name: Seq<char>)
    ensures
        tip_names(entries, query).contains(name) <==> passes(name, query) && exists|i: int|
            0 <= i < entries.len() && tip_stem(#[trigger] entries[i]) == Some(name),
{
    let pick = |file_name: Seq<char>| listed_name(file_name, query);
    lemma_filter_map_membership(entries, pick, name);
    if tip_names(entries, query).contains(name) {
        let i = choose|i: int| 0 <= i < entries.len() && pick(#[trigger] entries[i]) == Some(name);
        assert(tip_stem(entries[i]) == Some(name));
    }
    if passes(name, query) && exists|i: int|
        0 <= i < entries.len() && tip_stem(#[trigger] entries[i]) == Some(name) {
        let i = choose|i: int|
            0 <= i < entries.len() && tip_stem(#[trigger] entries[i]) == Some(name);
        assert(pick(entries[i]) == Some(name));
    }
}

/// A line is shown exactly where it passes the query and is some line of the
/// tip without the white space at its end.
pub proof fn lemma_shown_lines(lines: Seq<Seq<char>>, query: Option<Seq<char>>, line: Seq<char>)
    ensures
        shown_lines(lines, query).contains(line) <==> passes(line, query) && exists|i: int|
            0 <= i < lines.len() && trimmed(#[trigger] lines[i]) == line,
{
    let pick = |text: Seq<char>| shown_line(text, query);
    lemma_filter_map_membership(lines, pick, line);
    if shown_lines(lines, query).contains(line) {
        let i = choose|i: int| 0 <= i < lines.len() && pick(#[trigger] lines[i]) == Some(line);
        assert(trimmed(lines[i]) == line);
    }
    if passes(line, query) && exists|i: int|
        0 <= i < lines.len() && trimmed(#[trigger] lines[i]) == line {
        let i = choose|i: int| 0 <= i < lines.len() && trimmed(#[trigger] lines[i]) == line;
        assert(pick(lines[i]) == Some(line));
    }
}

/// The text that is written for `lines`: each line, followed by a line feed.
pub open spec fn written(lines: Seq<Seq<char>>) -> Seq<char>
    decreases lines.len(),
{
    if lines.len() == 0 {
        Seq::empty()
    } else {
        lines[0] + seq!['\n'] + written(lines.drop_first())
    }
}

/// Whether no line of `lines` holds a line feed.
pub open spec fn no_line_feeds(lines: Seq<Seq<char>>) -> bool {
    forall|i: int, j: int|
        0 <= i < lines.len() && 0 <= j < lines[i].len() ==> (#[trigger] lines[i][j]) != '\n'
}

/// The lines of what is written for `lines` are `lines`, where no line holds a
/// line feed.
pub proof fn lemma_lines_of_written(lines: Seq<Seq<char>>)
    requires
        no_line_feeds(lines),
    ensures
        lines_of_text(written(lines)) == lines,
    decreases lines.len(),
{
    if lines.len() > 0 {
        let others = lines.drop_first();
        assert(no_line_feeds(others)) by {
            assert forall|i: int, j: int|
                0 <= i < others.len() && 0 <= j < others[i].len() implies (
            #[trigger] others[i][j]) != '\n' by {
                assert(others[i][j] == lines[i + 1][j]);
            }
        }
        lemma_lines_of_written(others);
        assert forall|j: int| 0 <= j < lines[0].len() implies lines[0][j] != '\n' by {
            assert(lines[0][j] != '\n');
        }
        lemma_split_first(lines[0], '\n', written(others));
        assert(seq![lines[0]] + others == lines);
    }
}

/// A text that is encoded, split into lines and read again gives the lines of
/// the text.
pub proof fn lemma_text_comes_back(text: Seq<char>)
    ensures
        readable(lines_of(encode_utf8(text))) == lines_of_text(text),
    decreases text.len(),
{
    let pick = |line: Seq<u8>| decoded(line);
    if text.len() == 0 {
    } else {
        lemma_first_line(text, '\n');
        let end = line_end(text, '\n') as int;
        let line = text.take(end);
        assert forall|j: int| 0 <= j < line.len() implies line[j] != '\n' by {
            assert(line[j] == text[j]);
        }
        lemma_encode_no_feed(line);
        encode_utf8_valid_utf8(line);
        encode_utf8_decode_utf8(line);
        Seq::lemma_filter_map_singleton(encode_utf8(line), pick);
        assert(readable(seq![encode_utf8(line)]) == seq![line]);
        if end < text.len() {
            let rest = text.skip(end + 1);
            assert(text == line + seq!['\n'] + rest);
            assert(encode_utf8(text) == encode_utf8(line) + seq![LINE_FEED] + encode_utf8(rest))
                by {
                lemma_encode_concat(line + seq!['\n'], rest);
                lemma_encode_concat(line, seq!['\n']);
                lemma_encode_feed();
            }
            lemma_split_first(encode_utf8(line), LINE_FEED, encode_utf8(rest));
            assert(lines_of(encode_utf8(text)) == seq![encode_utf8(line)] + lines_of(
                encode_utf8(rest),
            ));
            lemma_filter_map_concat(seq![encode_utf8(line)], lines_of(encode_utf8(rest)), pick);
            assert(readable(lines_of(encode_utf8(text))) == seq![line] + readable(
                lines_of(encode_utf8(rest)),
            ));
            lemma_text_comes_back(rest);
            assert(after_first_line(text, '\n') == rest);
            assert(lines_of_text(text) == seq![line] + lines_of_text(rest));
        } else {
            assert(line == text);
            lemma_split_last(encode_utf8(text), LINE_FEED);
            assert(readable(lines_of(encode_utf8(text))) == seq![text]);
            assert(after_first_line(text, '\n') == Seq::<char>::empty());
            assert(split_lines(Seq::<char>::empty(), '\n') == Seq::<Seq<char>>::empty());
            assert(seq![text] + Seq::<Seq<char>>::empty() == seq![text]);
            assert(lines_of_text(text) == seq![text]);
        }
    }
}

/// Without a query every line is shown, without the white space at its end.
pub proof fn lemma_shown_without_query(lines: Seq<Seq<char>>)
    ensures
        shown_lines(lines, None).len() == lines.len(),
        forall|i: int| 0 <= i < lines.len() ==> shown_lines(lines, None)[i] == trimmed(lines[i]),
    decreases lines.len(),
{
    if lines.len() > 0 {
        lemma_shown_without_query(lines.drop_last());
    }
}

/// A tip that holds a text is listed as the lines of the text, each without the
/// white space at its end and no other change: empty lines stay, and so does
/// the order.
pub proof fn lemma_text_is_listed(text: Seq<char>)
    ensures
        tip_lines(encode_utf8(text), None).len() == lines_of_text(text).len(),
        forall|i: int|
            0 <= i < lines_of_text(text).len() ==> tip_lines(encode_utf8(text), None)[i]
                == trimmed(lines_of_text(text)[i]),
{
    lemma_text_comes_back(text);
    lemma_shown_without_query(lines_of_text(text));
}

/// Lines that are written to a tip, each ended by a line feed, are listed
/// again line for line, each without the white space at its end: empty lines
/// stay, and so does the order.
pub proof fn lemma_written_lines_are_listed(
    name: Seq<char>,
    content: Vec<u8>,
    lines: Seq<Seq<char>>,
)
    requires
        no_line_feeds(lines),
        content@ == encode_utf8(written(lines)),
    ensures
        tip_listing(name, TipFile::Content(content), None) matches Ok(shown) && shown.len()
            == lines.len() && forall|i: int|
            0 <= i < lines.len() ==> shown[i] == trimmed(lines[i]),
{
    lemma_lines_of_written(lines);
    lemma_text_is_listed(written(lines));
}

} // verus!
