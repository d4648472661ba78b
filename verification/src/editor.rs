//! Editing a tip: what to do next, step by step.
//!
//! The caller does the work on the file system and runs the editor; after each
//! piece of work it says what came of it, and `edit_tips` says what follows. An
//! edit begins with `EditEvent::Started` and ends with `EditAction::Finish`.

use crate::location::{quote_path, quoted_path, tip_path, tips_file};
use vstd::prelude::*;

verus! {

/// What came of the work that was asked for last.
#[derive(Debug, PartialEq, Eq)]
pub enum EditEvent {
    /// Nothing has been asked for yet.
    Started,
    /// The directory of the tips is there.
    DirReady,
    /// The directory of the tips could not be created, for the given reason.
    DirFailed(String),
    /// The file of the tip was looked for: whether it is there.
    FileProbed(bool),
    /// The file of the tip was created, empty.
    FileCreated,
    /// The file of the tip could not be created, for the given reason.
    FileFailed(String),
    /// The editor ran and ended: whether it reported success.
    EditorExited(bool),
    /// The editor could not be started, for the given reason.
    EditorFailed(String),
}

/// The work to do next.
#[derive(Debug, PartialEq, Eq)]
pub enum EditAction {
    /// Create the directory at this path, with those above it, unless it is
    /// there.
    CreateDir(String),
    /// Look whether there is a file at this path.
    ProbeFile(String),
    /// Create an empty file at this path.
    CreateFile(String),
    /// Run `program` with `path` as its one argument, in the foreground, and
    /// wait until it ends.
    RunEditor { program: String, path: String },
    /// Print the line on standard output, or the diagnostic on the error
    /// stream, and stop.
    Finish(Result<String, String>),
}

/// An `EditAction` with its paths and lines as text.
pub enum EditActionView {
    CreateDir(Seq<char>),
    ProbeFile(Seq<char>),
    CreateFile(Seq<char>),
    RunEditor { program: Seq<char>, path: Seq<char> },
    Finish(Result<Seq<char>, Seq<char>>),
}

impl View for EditAction {
    type V = EditActionView;

    open spec fn view(&self) -> EditActionView {
        match *self {
            EditAction::CreateDir(path) => EditActionView::CreateDir(path@),
            EditAction::ProbeFile(path) => EditActionView::ProbeFile(path@),
            EditAction::CreateFile(path) => EditActionView::CreateFile(path@),
            EditAction::RunEditor { program, path } => EditActionView::RunEditor {
                program: program@,
                path: path@,
            },
            EditAction::Finish(Ok(line)) => EditActionView::Finish(Ok(line@)),
            EditAction::Finish(Err(diagnostic)) => EditActionView::Finish(Err(diagnostic@)),
        }
    }
}

/// The editor to run: the one that is set, or `vim` where none is set or the
/// empty one is.
pub open spec fn editor_of(set: Option<Seq<char>>) -> Seq<char> {
    match set {
        Some(program) => if program.len() > 0 {
            program
        } else {
            "vim"@
        },
        None => "vim"@,
    }
}

/// The step that follows `event` in the edit of the tip `name` under `home`.
///
/// With `init`, the directory and the file are seen to before the editor
/// runs; without it, the editor runs at once. A file that is there is never
/// created again. Whatever fails ends the edit with a diagnostic.
pub open spec fn edit_step(
    home: Seq<char>,
    editor: Option<Seq<char>>,
    name: Seq<char>,
    init: bool,
    event: EditEvent,
) -> EditActionView {
    let path = tip_path(home, name);
    let run = EditActionView::RunEditor { program: editor_of(editor), path };
    match event {
        EditEvent::Started => if init {
            EditActionView::CreateDir(home)
        } else {
            run
        },
        EditEvent::DirReady => EditActionView::ProbeFile(path),
        EditEvent::DirFailed(reason) => EditActionView::Finish(
            Err("Cannot create directory "@ + quoted_path(home) + ": "@ + reason@),
        ),
        EditEvent::FileProbed(found) => if found {
            run
        } else {
            EditActionView::CreateFile(path)
        },
        EditEvent::FileCreated => run,
        EditEvent::FileFailed(reason) => EditActionView::Finish(
            Err("Cannot create file "@ + quoted_path(path) + ": "@ + reason@),
        ),
        EditEvent::EditorExited(success) => if success {
            EditActionView::Finish(Ok("Tips for "@ + name + " updated."@))
        } else {
            EditActionView::Finish(Ok("Cancelled."@))
        },
        EditEvent::EditorFailed(reason) => EditActionView::Finish(
            Err("Failed to start editor process: "@ + reason@),
        ),
    }
}

/// Whether `event` can be what came of `action`.
pub open spec fn answers(event: EditEvent, action: EditActionView) -> bool {
    match action {
        EditActionView::CreateDir(_) => event is DirReady || event is DirFailed,
        EditActionView::ProbeFile(_) => event is FileProbed,
        EditActionView::CreateFile(_) => event is FileCreated || event is FileFailed,
        EditActionView::RunEditor { .. } => event is EditorExited || event is EditorFailed,
        EditActionView::Finish(_) => false,
    }
}

/// Whether `events` can be the events of one edit, from its start on: the first
/// is `Started`, and each later one is what came of the step that followed the
/// one before.
pub open spec fn is_run(
    home: Seq<char>,
    editor: Option<Seq<char>>,
    name: Seq<char>,
    init: bool,
    events: Seq<EditEvent>,
) -> bool {
    &&& events.len() > 0
    &&& events[0] is Started
    &&& forall|i: int|
        0 < i < events.len() ==> answers(
            #[trigger] events[i],
            edit_step(home, editor, name, init, events[i - 1]),
        )
}

/// The editor to run. `editor_var` is the value of the variable `EDITOR`, if it
/// is set.
pub fn editor_program(editor_var: &Option<String>) -> (program: String)
    ensures
        program@ == editor_of(editor_var.deep_view()),
{
    match editor_var {
        Some(set) => {
            if !set.as_str().is_empty() {
                set.clone()
            } else {
                "vim".to_owned()
            }
        },
        None => "vim".to_owned(),
    }
}

/// The diagnostic for a directory that cannot be created. `quoted_dir` is the
/// directory as a diagnostic shows it.
pub fn cannot_create_directory(quoted_dir: &str, reason: &str) -> (diagnostic: String)
    ensures
        diagnostic@ == "Cannot create directory "@ + quoted_dir@ + ": "@ + reason@,
{
    String::from_str("Cannot create directory ").concat(quoted_dir).concat(": ").concat(reason)
}

/// The diagnostic for a file that cannot be created. `quoted_file` is its path
/// as a diagnostic shows it.
pub fn cannot_create_file(quoted_file: &str, reason: &str) -> (diagnostic: String)
    ensures
        diagnostic@ == "Cannot create file "@ + quoted_file@ + ": "@ + reason@,
{
    String::from_str("Cannot create file ").concat(quoted_file).concat(": ").concat(reason)
}

/// The diagnostic for an editor that cannot be started.
pub fn cannot_start_editor(reason: &str) -> (diagnostic: String)
    ensures
        diagnostic@ == "Failed to start editor process: "@ + reason@,
{
    String::from_str("Failed to start editor process: ").concat(reason)
}

/// The line that an edit ends with, once the editor has run: that the tip was
/// updated where the editor reported success, that the edit was cancelled where
/// it did not.
pub fn edit_outcome(name: &str, success: bool) -> (line: String)
    ensures
        line@ == (if success {
            "Tips for "@ + name@ + " updated."@
        } else {
            "Cancelled."@
        }),
{
    if success {
        String::from_str("Tips for ").concat(name).concat(" updated.")
    } else {
        "Cancelled.".to_owned()
    }
}

/// Says what to do next in the edit of the tip `name`, kept in the directory
/// `home`, after `event`.
///
/// `editor_var` is the value of the variable `EDITOR`, if it is set. With
/// `init`, the directory is created first, then the file unless it is there;
/// without it, nothing is created. Then the editor runs on the file, and the
/// edit ends with a line that says how the editor ended. A step that fails ends
/// the edit with a diagnostic.
pub fn edit_tips(
    home: &str,
    editor_var: &Option<String>,
    name: &str,
    init: bool,
    event: EditEvent,
) -> (action: EditAction)
    ensures
        action@ == edit_step(home@, editor_var.deep_view(), name@, init, event),
{
    match event {
        EditEvent::Started => {
            if init {
                EditAction::CreateDir(home.to_owned())
            } else {
                EditAction::RunEditor {
                    program: editor_program(editor_var),
                    path: tips_file(home, name),
                }
            }
        },
        EditEvent::DirReady => EditAction::ProbeFile(tips_file(home, name)),
        EditEvent::DirFailed(reason) => {
            let quoted = quote_path(home);
            EditAction::Finish(Err(cannot_create_directory(quoted.as_str(), reason.as_str())))
        },
        EditEvent::FileProbed(found) => {
            if found {
                EditAction::RunEditor {
                    program: editor_program(editor_var),
                    path: tips_file(home, name),
                }
            } else {
                EditAction::CreateFile(tips_file(home, name))
            }
        },
        EditEvent::FileCreated => EditAction::RunEditor {
            program: editor_program(editor_var),
            path: tips_file(home, name),
        },
        EditEvent::FileFailed(reason) => {
            let path = tips_file(home, name);
            let quoted = quote_path(path.as_str());
            EditAction::Finish(Err(cannot_create_file(quoted.as_str(), reason.as_str())))
        },
        EditEvent::EditorExited(success) => EditAction::Finish(Ok(edit_outcome(name, success))),
        EditEvent::EditorFailed(reason) => EditAction::Finish(
            Err(cannot_start_editor(reason.as_str())),
        ),
    }
}

/// A file is created only in answer to a look that did not find it: one that
/// is there is left as it is.
pub proof fn lemma_creates_only_what_is_missing(
    home: Seq<char>,
    editor: Option<Seq<char>>,
    name: Seq<char>,
    init: bool,
    event: EditEvent,
)
    ensures
        edit_step(home, editor, name, init, event) is CreateFile <==> event
            == EditEvent::FileProbed(false),
{
}

/// An edit has at most five events: nothing is tried twice.
pub proof fn lemma_run_is_short(
    home: Seq<char>,
    editor: Option<Seq<char>>,
    name: Seq<char>,
    init: bool,
    events: Seq<EditEvent>,
)
    requires
        is_run(home, editor, name, init, events),
    ensures
        events.len() <= 5,
{
    if events.len() > 5 {
        assert(answers(events[1], edit_step(home, editor, name, init, events[0])));
        assert(answers(events[2], edit_step(home, editor, name, init, events[1])));
        assert(answers(events[3], edit_step(home, editor, name, init, events[2])));
        assert(answers(events[4], edit_step(home, editor, name, init, events[3])));
        assert(answers(events[5], edit_step(home, editor, name, init, events[4])));
    }
}

/// With `init`, the editor runs only once the directory is there and the file
/// is too: found by the look before, or created after a look that did not find
/// it.
pub proof fn lemma_editor_runs_on_a_file(
    home: Seq<char>,
    editor: Option<Seq<char>>,
    name: Seq<char>,
    events: Seq<EditEvent>,
    i: int,
)
    requires
        is_run(home, editor, name, true, events),
        0 <= i < events.len(),
        edit_step(home, editor, name, true, events[i]) is RunEditor,
    ensures
        i >= 2,
        events[1] is DirReady,
        events[2] is FileProbed,
        events[i] == EditEvent::FileProbed(true) || (i == 3 && events[2]
            == EditEvent::FileProbed(false) && events[3] is FileCreated),
{
    lemma_run_is_short(home, editor, name, true, events);
    assert(i >= 1 ==> answers(events[1], edit_step(home, editor, name, true, events[0])));
    assert(i >= 2 ==> answers(events[2], edit_step(home, editor, name, true, events[1])));
    assert(i >= 3 ==> answers(events[3], edit_step(home, editor, name, true, events[2])));
    assert(i >= 4 ==> answers(events[4], edit_step(home, editor, name, true, events[3])));
}

/// Without `init`, an edit creates nothing: each of its steps runs the editor
/// or ends the edit.
pub proof fn lemma_nothing_created_without_init(
    home: Seq<char>,
    editor: Option<Seq<char>>,
    name: Seq<char>,
    events: Seq<EditEvent>,
    i: int,
)
    requires
        is_run(home, editor, name, false, events),
        0 <= i < events.len(),
    ensures
        edit_step(home, editor, name, false, events[i]) is RunEditor || edit_step(
            home,
            editor,
            name,
            false,
            events[i],
        ) is Finish,
{
    lemma_run_is_short(home, editor, name, false, events);
    assert(i >= 1 ==> answers(events[1], edit_step(home, editor, name, false, events[0])));
    assert(i >= 2 ==> answers(events[2], edit_step(home, editor, name, false, events[1])));
}

} // verus!
