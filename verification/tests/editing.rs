use tips::editor::{
    cannot_create_directory, cannot_create_file, cannot_start_editor, edit_outcome, edit_tips,
    editor_program, EditAction, EditEvent,
};
use tips::usage;

const HOME: &str = "/srv/tips";
const FILE: &str = "/srv/tips/newtip.tips";

fn run_editor(program: &str) -> EditAction {
    EditAction::RunEditor { program: program.to_string(), path: FILE.to_string() }
}

/// A file system of one directory, and an editor that appends to the file.
struct World {
    dir: bool,
    file: Option<String>,
    appended: &'static str,
    actions: Vec<String>,
}

fn edit(world: &mut World, name: &str, init: bool) -> Result<String, String> {
    let editor = Some("ed".to_string());
    let mut event = EditEvent::Started;
    loop {
        let action = edit_tips(HOME, &editor, name, init, event);
        event = match action {
            EditAction::CreateDir(path) => {
                assert_eq!(path, HOME);
                world.actions.push("mkdir".to_string());
                world.dir = true;
                EditEvent::DirReady
            }
            EditAction::ProbeFile(path) => {
                assert_eq!(path, FILE);
                world.actions.push("probe".to_string());
                EditEvent::FileProbed(world.file.is_some())
            }
            EditAction::CreateFile(path) => {
                assert_eq!(path, FILE);
                world.actions.push("create".to_string());
                if !world.dir {
                    EditEvent::FileFailed("No such file or directory".to_string())
                } else {
                    world.file = Some(String::new());
                    EditEvent::FileCreated
                }
            }
            EditAction::RunEditor { program, path } => {
                assert_eq!(program, "ed");
                assert_eq!(path, FILE);
                world.actions.push("edit".to_string());
                if !world.dir {
                    EditEvent::EditorExited(false)
                } else {
                    let mut text = world.file.take().unwrap_or_default();
                    text.push_str(world.appended);
                    world.file = Some(text);
                    EditEvent::EditorExited(true)
                }
            }
            EditAction::Finish(report) => return report,
        };
    }
}

#[test]
fn init_creates_the_directory_and_an_empty_file_before_the_editor() {
    let mut world = World { dir: false, file: None, appended: "", actions: Vec::new() };
    let report = edit(&mut world, "newtip", true);
    assert_eq!(report, Ok("Tips for newtip updated.".to_string()));
    assert_eq!(world.actions, ["mkdir", "probe", "create", "edit"]);
    assert!(world.dir);
    assert_eq!(world.file, Some(String::new()));
}

#[test]
fn init_again_leaves_an_existing_file_as_it_is() {
    let mut world = World { dir: false, file: None, appended: "a tip\n", actions: Vec::new() };
    assert_eq!(edit(&mut world, "newtip", true), Ok("Tips for newtip updated.".to_string()));
    assert_eq!(world.file, Some("a tip\n".to_string()));
    world.actions.clear();
    world.appended = "";
    assert_eq!(edit(&mut world, "newtip", true), Ok("Tips for newtip updated.".to_string()));
    assert_eq!(world.actions, ["mkdir", "probe", "edit"]);
    assert_eq!(world.file, Some("a tip\n".to_string()));
}

#[test]
fn without_init_nothing_is_created_before_the_editor() {
    let mut world = World { dir: false, file: None, appended: "", actions: Vec::new() };
    assert_eq!(edit(&mut world, "newtip", false), Ok("Cancelled.".to_string()));
    assert_eq!(world.actions, ["edit"]);
    assert!(!world.dir);
    assert_eq!(world.file, None);
}

#[test]
fn the_edit_starts_with_the_directory_or_the_editor() {
    let editor = Some("nano".to_string());
    let action = edit_tips(HOME, &editor, "newtip", true, EditEvent::Started);
    assert_eq!(action, EditAction::CreateDir(HOME.to_string()));
    let action = edit_tips(HOME, &editor, "newtip", false, EditEvent::Started);
    assert_eq!(action, run_editor("nano"));
}

#[test]
fn after_the_directory_the_file_is_looked_for() {
    let action = edit_tips(HOME, &None, "newtip", true, EditEvent::DirReady);
    assert_eq!(action, EditAction::ProbeFile(FILE.to_string()));
}

#[test]
fn a_file_is_created_only_when_it_is_missing() {
    let action = edit_tips(HOME, &None, "newtip", true, EditEvent::FileProbed(false));
    assert_eq!(action, EditAction::CreateFile(FILE.to_string()));
    let action = edit_tips(HOME, &None, "newtip", true, EditEvent::FileProbed(true));
    assert_eq!(action, run_editor("vim"));
}

#[test]
fn after_the_file_is_created_the_editor_runs() {
    let editor = Some("emacs".to_string());
    let action = edit_tips(HOME, &editor, "newtip", true, EditEvent::FileCreated);
    assert_eq!(action, run_editor("emacs"));
}

#[test]
fn a_directory_that_cannot_be_created_ends_the_edit() {
    let event = EditEvent::DirFailed("Permission denied (os error 13)".to_string());
    let action = edit_tips(HOME, &None, "newtip", true, event);
    let text = "Cannot create directory \"/srv/tips\": Permission denied (os error 13)";
    assert_eq!(action, EditAction::Finish(Err(text.to_string())));
}

#[test]
fn a_file_that_cannot_be_created_ends_the_edit() {
    let event = EditEvent::FileFailed("Read-only file system (os error 30)".to_string());
    let action = edit_tips(HOME, &None, "newtip", true, event);
    let text =
        "Cannot create file \"/srv/tips/newtip.tips\": Read-only file system (os error 30)";
    assert_eq!(action, EditAction::Finish(Err(text.to_string())));
}

#[test]
fn an_editor_that_succeeds_updates_the_tip() {
    let action = edit_tips(HOME, &None, "newtip", false, EditEvent::EditorExited(true));
    assert_eq!(action, EditAction::Finish(Ok("Tips for newtip updated.".to_string())));
}

#[test]
fn an_editor_that_fails_cancels_the_edit() {
    let action = edit_tips(HOME, &None, "newtip", false, EditEvent::EditorExited(false));
    assert_eq!(action, EditAction::Finish(Ok("Cancelled.".to_string())));
}

#[test]
fn an_editor_that_cannot_be_started_ends_the_edit() {
    let event = EditEvent::EditorFailed("No such file or directory (os error 2)".to_string());
    let action = edit_tips(HOME, &Some("nope".to_string()), "newtip", false, event);
    let text = "Failed to start editor process: No such file or directory (os error 2)";
    assert_eq!(action, EditAction::Finish(Err(text.to_string())));
}

#[test]
fn the_editor_is_vim_unless_one_is_set() {
    assert_eq!(editor_program(&None), "vim");
    assert_eq!(editor_program(&Some(String::new())), "vim");
    assert_eq!(editor_program(&Some("nano".to_string())), "nano");
    assert_eq!(editor_program(&Some("code --wait".to_string())), "code --wait");
    assert_eq!(editor_program(&Some(" ".to_string())), " ");
}

#[test]
fn edit_messages_are_exact() {
    assert_eq!(cannot_create_directory("\"/d\"", "why"), "Cannot create directory \"/d\": why");
    assert_eq!(cannot_create_file("\"/d/f.tips\"", "why"), "Cannot create file \"/d/f.tips\": why");
    assert_eq!(cannot_start_editor("why"), "Failed to start editor process: why");
    assert_eq!(edit_outcome("x", true), "Tips for x updated.");
    assert_eq!(edit_outcome("x", false), "Cancelled.");
}

#[test]
fn no_command_prints_the_commands() {
    assert_eq!(usage(), "Available commands: list, edit");
}

/// The events that can come of `action`, each with a name for the record.
fn answers(action: &EditAction) -> Vec<(&'static str, EditEvent)> {
    match action {
        EditAction::CreateDir(_) => vec![
            ("dir ready", EditEvent::DirReady),
            ("dir failed", EditEvent::DirFailed("no".to_string())),
        ],
        EditAction::ProbeFile(_) => vec![
            ("found", EditEvent::FileProbed(true)),
            ("not found", EditEvent::FileProbed(false)),
        ],
        EditAction::CreateFile(_) => vec![
            ("created", EditEvent::FileCreated),
            ("create failed", EditEvent::FileFailed("no".to_string())),
        ],
        EditAction::RunEditor { .. } => vec![
            ("exited well", EditEvent::EditorExited(true)),
            ("exited badly", EditEvent::EditorExited(false)),
            ("not started", EditEvent::EditorFailed("no".to_string())),
        ],
        EditAction::Finish(_) => Vec::new(),
    }
}

/// Every edit that can happen, as the names of its events from the start on.
fn runs(init: bool, event: EditEvent, so_far: Vec<&'static str>, all: &mut Vec<Vec<&'static str>>) {
    let action = edit_tips(HOME, &None, "newtip", init, event);
    let next = answers(&action);
    if next.is_empty() {
        all.push(so_far);
        return;
    }
    for (name, event) in next {
        let mut longer = so_far.clone();
        longer.push(match action {
            EditAction::CreateDir(_) => "mkdir",
            EditAction::ProbeFile(_) => "probe",
            EditAction::CreateFile(_) => "create",
            _ => "edit",
        });
        longer.push(name);
        runs(init, event, longer, all);
    }
}

#[test]
fn every_edit_with_init_sees_to_the_file_before_the_editor() {
    let mut all = Vec::new();
    runs(true, EditEvent::Started, Vec::new(), &mut all);
    // One that ends at the directory, one at the creation of the file, and
    // three ends of the editor after each of the two ways to the file.
    assert_eq!(all.len(), 8);
    for run in all {
        // Work and what came of it alternate: at most four pieces of work,
        // which with the start makes five events.
        assert!(run.len() <= 8, "{:?}", run);
        assert_eq!(run[0], "mkdir");
        if let Some(at) = run.iter().position(|step| *step == "edit") {
            assert_eq!(run[1], "dir ready");
            let before = &run[..at];
            assert!(
                before.ends_with(&["probe", "found"])
                    || before.ends_with(&["probe", "not found", "create", "created"]),
                "{:?}",
                run
            );
        }
        if let Some(at) = run.iter().position(|step| *step == "create") {
            assert_eq!(&run[at - 2..at], ["probe", "not found"]);
        }
    }
}

#[test]
fn every_edit_without_init_only_runs_the_editor() {
    let mut all = Vec::new();
    runs(false, EditEvent::Started, Vec::new(), &mut all);
    assert_eq!(all.len(), 3);
    for run in all {
        assert_eq!(run.len(), 2);
        assert_eq!(run[0], "edit");
    }
}
