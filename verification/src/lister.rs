//! Listing: the names of the tips in a directory, or the lines of one tip, with
//! an optional query that each name or line must hold.
//!
//! The caller looks into the directory or the file and hands over what it
//! found; what is printed is decided here.

use crate::lines::{lines_of, readable, text_lines};
use crate::location::{quote_path, quoted_path, tip_path, tips_file};
use crate::text::{chars_of, passes, passes_query, starts_at, trim_end, trimmed};
use vstd::prelude::*;

verus! {

/// What was found where the file of a tip should be.
#[derive(Debug, PartialEq, Eq)]
pub enum TipFile {
    /// No such file.
    Missing,
    /// A file that could not be opened, with the reason.
    Unreadable(String),
    /// The bytes of the file.
    Content(Vec<u8>),
}

/// What a listing has to look at before it can say anything.
#[derive(Debug, PartialEq, Eq)]
pub enum Lookup {
    /// The entries of the directory `dir`.
    Names { dir: String },
    /// The file at `path`, which holds the tip `name`.
    Tip { name: String, path: String },
}

/// What an operation prints, as text: the lines for standard output, or the
/// one diagnostic for the error stream.
pub open spec fn printed(out: Result<Vec<String>, String>) -> Result<Seq<Seq<char>>, Seq<char>> {
    match out {
        Ok(lines) => Ok(lines.deep_view()),
        Err(diagnostic) => Err(diagnostic@),
    }
}

/// The place of the last `.` in `name`, or -1 where it has none.
pub open spec fn last_dot(name: Seq<char>) -> int
    decreases name.len(),
{
    if name.len() == 0 {
        -1
    } else if name.last() == '.' {
        name.len() - 1
    } else {
        last_dot(name.drop_last())
    }
}

/// The extension of a file name: what follows its last `.`. A name without a
/// `.`, or with none but the one it begins with, has no extension.
pub open spec fn extension(name: Seq<char>) -> Option<Seq<char>> {
    let dot = last_dot(name);
    if dot <= 0 {
        None
    } else {
        Some(name.skip(dot + 1))
    }
}

/// The stem of a file name: what stands before the `.` of its extension, or
/// the whole name where it has no extension.
pub open spec fn file_stem(name: Seq<char>) -> Seq<char> {
    let dot = last_dot(name);
    if dot <= 0 {
        name
    } else {
        name.take(dot)
    }
}

/// The name of the tip that a file of the name `file_name` holds: its stem,
/// where its extension is `tips`. Other files hold no tip.
pub open spec fn tip_stem(file_name: Seq<char>) -> Option<Seq<char>> {
    if extension(file_name) == Some("tips"@) {
        Some(file_stem(file_name))
    } else {
        None
    }
}

/// The name under which a directory entry is listed, if it is listed: the entry
/// holds a tip, and the tip's name passes the query.
pub open spec fn listed_name(file_name: Seq<char>, query: Option<Seq<char>>) -> Option<Seq<char>> {
    match tip_stem(file_name) {
        Some(name) => if passes(name, query) {
            Some(name)
        } else {
            None
        },
        None => None,
    }
}

/// The names listed for a directory with the entries `entries`, in the order of
/// the entries.
pub open spec fn tip_names(entries: Seq<Seq<char>>, query: Option<Seq<char>>) -> Seq<Seq<char>> {
    entries.filter_map(|file_name: Seq<char>| listed_name(file_name, query))
}

/// The line as it is shown, if it is shown: without the white space at its end,
/// where what is left passes the query.
pub open spec fn shown_line(line: Seq<char>, query: Option<Seq<char>>) -> Option<Seq<char>> {
    if passes(trimmed(line), query) {
        Some(trimmed(line))
    } else {
        None
    }
}

/// The lines shown of `lines`, in their order.
pub open spec fn shown_lines(lines: Seq<Seq<char>>, query: Option<Seq<char>>) -> Seq<Seq<char>> {
    lines.filter_map(|line: Seq<char>| shown_line(line, query))
}

/// The lines shown of a tip with the content `content`.
pub open spec fn tip_lines(content: Seq<u8>, query: Option<Seq<char>>) -> Seq<Seq<char>> {
    shown_lines(readable(lines_of(content)), query)
}

/// What the listing of names prints: the names, or a diagnostic where the
/// directory could not be read.
pub open spec fn names_listing(
    home: Seq<char>,
    entries: Option<Seq<Seq<char>>>,
    query: Option<Seq<char>>,
) -> Result<Seq<Seq<char>>, Seq<char>> {
    match entries {
        Some(entries) => Ok(tip_names(entries, query)),
        None => Err("No tips.d found on "@ + quoted_path(home)),
    }
}

/// What the listing of the tip `name` prints: its lines, one line that says
/// that there is no such tip, or a diagnostic where its file could not be
/// opened.
pub open spec fn tip_listing(name: Seq<char>, file: TipFile, query: Option<Seq<char>>) -> Result<
    Seq<Seq<char>>,
    Seq<char>,
> {
    match file {
        TipFile::Missing => Ok(seq!["No tips available for "@ + name]),
        TipFile::Unreadable(reason) => Err("Cannot open file: "@ + reason@),
        TipFile::Content(content) => Ok(tip_lines(content@, query)),
    }
}

/// The last `.` of `name` stands at `dot`: none stands behind it.
pub proof fn lemma_last_dot(name: Seq<char>, dot: int)
    requires
        -1 <= dot < name.len(),
        dot >= 0 ==> name[dot] == '.',
        forall|j: int| dot < j < name.len() ==> name[j] != '.',
    ensures
        last_dot(name) == dot,
    decreases name.len(),
{
    if name.len() > 0 && dot < name.len() - 1 {
        lemma_last_dot(name.drop_last(), dot);
    }
}

/// The last `.` of a name is where `last_dot` says: a `.` stands there, and
/// none behind it.
pub proof fn lemma_last_dot_is_last(name: Seq<char>)
    ensures
        -1 <= last_dot(name) < name.len(),
        last_dot(name) >= 0 ==> name[last_dot(name)] == '.',
        forall|j: int| last_dot(name) < j < name.len() ==> name[j] != '.',
    decreases name.len(),
{
    if name.len() > 0 && name.last() != '.' {
        let shorter = name.drop_last();
        lemma_last_dot_is_last(shorter);
        assert forall|j: int| last_dot(name) < j < name.len() implies name[j] != '.' by {
            if j < shorter.len() {
                assert(name[j] == shorter[j]);
            }
        }
    }
}

/// The name of the tip that the file `file_name` holds, if it holds one.
///
/// `file_name` is the name of a directory entry, without the directory. It holds
/// a tip where its extension is exactly `tips`, and the tip's name is its stem.
pub fn tip_name(file_name: &str) -> (name: Option<String>)
    ensures
        name.deep_view() == tip_stem(file_name@),
{
    let chars = chars_of(file_name);
    let tips = chars_of("tips");
    let mut after: usize = chars.len();
    while after > 0 && chars[after - 1] != '.'
        invariant
            after <= chars.len(),
            forall|j: int| after <= j < chars.len() ==> chars@[j] != '.',
        decreases after,
    {
        after = after - 1;
    }
    proof {
        lemma_last_dot(chars@, after - 1);
    }
    if after <= 1 || chars.len() - after != tips.len() || !starts_at(&chars, &tips, after) {
        return None;
    }
    assert(chars@.skip(after as int) == chars@.subrange(after as int, after + tips.len()));
    Some(file_name.substring_char(0, after - 1).to_owned())
}

/// The diagnostic for a directory of tips that cannot be read. `quoted_home` is
/// the directory as a diagnostic shows it.
pub fn missing_directory(quoted_home: &str) -> (diagnostic: String)
    ensures
        diagnostic@ == "No tips.d found on "@ + quoted_home@,
{
    String::from_str("No tips.d found on ").concat(quoted_home)
}

/// The line that says that there is no tip of the name `name`.
pub fn missing_tip(name: &str) -> (line: String)
    ensures
        line@ == "No tips available for "@ + name@,
{
    String::from_str("No tips available for ").concat(name)
}

/// The diagnostic for a tip whose file cannot be opened, for the reason
/// `reason`.
pub fn unreadable_tip(reason: &str) -> (diagnostic: String)
    ensures
        diagnostic@ == "Cannot open file: "@ + reason@,
{
    String::from_str("Cannot open file: ").concat(reason)
}

/// The names of the tips among `entries`, the names of the entries of a
/// directory, that pass `query`: in the order of the entries.
pub fn listed_names(entries: &Vec<String>, query: &Option<String>) -> (names: Vec<String>)
    ensures
        names.deep_view() == tip_names(entries.deep_view(), query.deep_view()),
{
    let mut names: Vec<String> = Vec::new();
    let ghost all = entries.deep_view();
    let ghost pick = |file_name: Seq<char>| listed_name(file_name, query.deep_view());
    assert(all.take(0).filter_map(pick) == Seq::<Seq<char>>::empty());
    for i in 0..entries.len()
        invariant
            all == entries.deep_view(),
            pick == |file_name: Seq<char>| listed_name(file_name, query.deep_view()),
            names.deep_view() == all.take(i as int).filter_map(pick),
    {
        proof {
            all.lemma_filter_map_take_succ(pick, i as int);
        }
        let ghost before = names.deep_view();
        match tip_name(entries[i].as_str()) {
            Some(name) => {
                if passes_query(name.as_str(), query) {
                    names.push(name);
                    assert(names.deep_view() == before + seq![name@]);
                }
            },
            None => {},
        }
    }
    assert(all.take(entries.len() as int) == all);
    names
}

/// The lines of `lines` as they are shown: each without the white space at its
/// end, and only those that pass `query`, in their order.
pub fn listed_lines(lines: &Vec<String>, query: &Option<String>) -> (shown: Vec<String>)
    ensures
        shown.deep_view() == shown_lines(lines.deep_view(), query.deep_view()),
{
    let mut shown: Vec<String> = Vec::new();
    let ghost all = lines.deep_view();
    let ghost pick = |line: Seq<char>| shown_line(line, query.deep_view());
    assert(all.take(0).filter_map(pick) == Seq::<Seq<char>>::empty());
    for i in 0..lines.len()
        invariant
            all == lines.deep_view(),
            pick == |line: Seq<char>| shown_line(line, query.deep_view()),
            shown.deep_view() == all.take(i as int).filter_map(pick),
    {
        proof {
            all.lemma_filter_map_take_succ(pick, i as int);
        }
        let ghost before = shown.deep_view();
        let line = trim_end(lines[i].as_str());
        if passes_query(line, query) {
            shown.push(line.to_owned());
            assert(shown.deep_view() == before + seq![line@]);
        }
    }
    assert(all.take(lines.len() as int) == all);
    shown
}

/// Lists the names of the tips in the directory `home`.
///
/// `entries` holds the names of the entries of the directory, in the order in
/// which it was read, or nothing where it could not be read. Each entry whose
/// extension is `tips` is listed by its stem, if the stem holds `query` or
/// there is no query; the order of the entries is kept. A directory that could
/// not be read gives a diagnostic that names it.
pub fn list_tips_names(home: &str, entries: Option<Vec<String>>, query: Option<String>) -> (out:
    Result<Vec<String>, String>)
    ensures
        printed(out) == names_listing(home@, entries.deep_view(), query.deep_view()),
{
    match entries {
        Some(entries) => Ok(listed_names(&entries, &query)),
        None => {
            let quoted = quote_path(home);
            Err(missing_directory(quoted.as_str()))
        },
    }
}

/// Lists the lines of the tip `name`.
///
/// `file` is what was found at the place of the tip's file. Of its content,
/// each line that is text is shown without the white space at its end, if it
/// then holds `query` or there is no query; the order of the lines is kept. A
/// missing file gives one line that says so, and a file that could not be
/// opened a diagnostic with the reason.
pub fn list_tips_for(name: &str, file: TipFile, query: Option<String>) -> (out: Result<
    Vec<String>,
    String,
>)
    ensures
        printed(out) == tip_listing(name@, file, query.deep_view()),
{
    match file {
        TipFile::Missing => {
            let mut lines: Vec<String> = Vec::new();
            lines.push(missing_tip(name));
            assert(lines.deep_view() == seq!["No tips available for "@ + name@]);
            Ok(lines)
        },
        TipFile::Unreadable(reason) => Err(unreadable_tip(reason.as_str())),
        TipFile::Content(content) => {
            let lines = text_lines(content.as_slice());
            Ok(listed_lines(&lines, &query))
        },
    }
}

/// Says what a listing has to look at: the directory `home` where no tip is
/// named, and the file of the tip in it where one is.
pub fn list_tips(home: &str, name: Option<String>) -> (lookup: Lookup)
    ensures
        name is None ==> lookup is Names && lookup->dir@ == home@,
        name is Some ==> lookup is Tip && lookup->name@ == name.unwrap()@ && lookup->path@
            == tip_path(home@, name.unwrap()@),
{
    match name {
        Some(tip) => {
            let path = tips_file(home, tip.as_str());
            Lookup::Tip { name: tip, path }
        },
        None => Lookup::Names { dir: home.to_owned() },
    }
}

} // verus!
