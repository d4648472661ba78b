//! Listing and editing of tips: small named text files kept in one directory.
//!
//! A tip `name` is the file `<name>.tips` in the directory of the tips. The
//! library decides what a command does and prints; the caller reads the
//! environment and the files, runs the editor and prints what it is given.

pub mod editor;
pub mod encoding;
pub mod laws;
pub mod lines;
pub mod lister;
pub mod location;
pub mod sequences;
pub mod text;

use vstd::prelude::*;

verus! {

/// The line that is printed where no command is given.
pub fn usage() -> (line: String)
    ensures
        line@ == "Available commands: list, edit"@,
{
    "Available commands: list, edit".to_owned()
}

} // verus!
