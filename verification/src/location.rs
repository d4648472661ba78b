//! Where the tips are kept: the directory that holds them, and the file of
//! each tip in it.
//!
//! Paths are held as text. What the environment says is handed in by the
//! caller: nothing here reads it.

use std::path::Path;
use vstd::prelude::*;

verus! {

/// The path `rel` taken from the directory `base`, as `std::path::Path::join`
/// makes it on the platform that the library is built for.
pub uninterp spec fn joined_path(base: Seq<char>, rel: Seq<char>) -> Seq<char>;

/// The path as the `Debug` impl of `std::path::Path` shows it.
pub uninterp spec fn quoted_path(path: Seq<char>) -> Seq<char>;

/// The name of the file that holds the tip `name`.
pub open spec fn tip_file_name(name: Seq<char>) -> Seq<char> {
    name + ".tips"@
}

/// The path of the file that holds the tip `name`, under the directory `home`.
pub open spec fn tip_path(home: Seq<char>, name: Seq<char>) -> Seq<char> {
    joined_path(home, tip_file_name(name))
}

/// The directory of the tips: the one that is set, if one is set, else the
/// usual place under the user's home directory.
pub open spec fn home_path(set: Option<Seq<char>>, user_home: Option<Seq<char>>) -> Seq<char>
    recommends
        set is Some || user_home is Some,
{
    match set {
        Some(dir) => dir,
        None => joined_path(user_home.unwrap(), ".config/himkt/dotfiles/tips"@),
    }
}

/// Calls `std::path::Path::join`. Taken on trust: the result is the path that
/// `join` makes of `base` and `rel`, and the same arguments always give the same
/// path. Both arguments are text, and so is what joins them, so the path comes
/// back as text with nothing changed.
#[verifier::external_body]
fn join_path(base: &str, rel: &str) -> (path: String)
    ensures
        path@ == joined_path(base@, rel@),
{
    Path::new(base).join(rel).to_string_lossy().into_owned()
}

/// Formats the path by the `Debug` impl of `std::path::Path`. Taken on trust:
/// the result is that form, and the same path always gives the same form.
#[verifier::external_body]
pub(crate) fn quote_path(path: &str) -> (quoted: String)
    ensures
        quoted@ == quoted_path(path@),
{
    format!("{:?}", Path::new(path))
}

/// The directory in which the tips are kept.
///
/// `tips_home_var` is the value of the variable `TIPS_HOME`, if it is set, and
/// `home_var` that of `HOME`. A value of `TIPS_HOME` is taken as it is, the
/// empty one too. Without one, the directory is `.config/himkt/dotfiles/tips`
/// under the user's home directory. Nothing asks whether the directory exists.
/// One of the two variables must be set: with neither there is no such
/// directory.
pub fn tips_home(tips_home_var: Option<String>, home_var: Option<String>) -> (dir: String)
    requires
        tips_home_var is Some || home_var is Some,
    ensures
        dir@ == home_path(tips_home_var.deep_view(), home_var.deep_view()),
{
    match tips_home_var {
        Some(dir) => dir,
        None => {
            let user_home = home_var.unwrap();
            join_path(user_home.as_str(), ".config/himkt/dotfiles/tips")
        },
    }
}

/// The path of the file that holds the tip `name`: `<name>.tips`, directly in
/// the directory `home`.
pub fn tips_file(home: &str, name: &str) -> (path: String)
    ensures
        path@ == tip_path(home@, name@),
{
    let file_name = String::from_str(name).concat(".tips");
    join_path(home, file_name.as_str())
}

} // verus!
