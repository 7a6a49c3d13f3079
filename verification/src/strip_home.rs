//! Paths as the window shows them: short, with `~` for the home directory.

use crate::platform::path_below;
use crate::platform::path_text;
use crate::platform::path_to_str;
use crate::platform::strip_prefix;
use std::path::PathBuf;
use vstd::prelude::*;

verus! {

/// How a path is shown, given its text if it has one, and whether that
/// text is what remains of the path below the home directory.
pub open spec fn shown_text(under_home: bool, text: Option<Seq<char>>) -> Seq<char> {
    match text {
        Some(text) => if under_home {
            "~/"@ + text
        } else {
            text
        },
        None => "Kann Dateipfad nicht darstellen"@,
    }
}

/// The characters of a text that may be missing.
pub open spec fn characters(text: Option<String>) -> Option<Seq<char>> {
    match text {
        Some(text) => Some(text@),
        None => None,
    }
}

/// Writes out how a path is shown.
pub fn shown_path(under_home: bool, text: Option<String>) -> (label: String)
    ensures
        label@ == shown_text(under_home, characters(text)),
{
    match text {
        Some(text) => {
            if under_home {
                let mut label = String::from_str("~/");
                label.append(text.as_str());
                label
            } else {
                text
            }
        },
        None => String::from_str("Kann Dateipfad nicht darstellen"),
    }
}

/// The home directory as contracts see it.
pub open spec fn known(home: Option<&PathBuf>) -> Option<PathBuf> {
    match home {
        Some(home) => Some(*home),
        None => None,
    }
}

/// What remains of `path` below the home directory: nothing without a
/// home directory, nor for a path that does not start with it.
pub open spec fn below_home(path: PathBuf, home: Option<PathBuf>) -> Option<PathBuf> {
    match home {
        Some(home) => path_below(path, home),
        None => None,
    }
}

/// How `path` is shown: a path below the home directory from there on,
/// behind `~/`; any other path in full; a path without text by a note in
/// its place.
pub open spec fn human_readable(path: PathBuf, home: Option<PathBuf>) -> Seq<char> {
    match below_home(path, home) {
        Some(rest) => shown_text(true, path_text(rest)),
        None => shown_text(false, path_text(path)),
    }
}

/// What remains of `path` below the home directory.
fn strip_home(path: &PathBuf, home: Option<&PathBuf>) -> (rest: Option<PathBuf>)
    ensures
        rest == below_home(*path, known(home)),
{
    match home {
        Some(home) => strip_prefix(path, home),
        None => None,
    }
}

/// Writes out how `path` is shown to the user, `home` being the user's
/// home directory if it is known.
pub fn path_to_human_readable(path: &PathBuf, home: Option<&PathBuf>) -> (label: String)
    ensures
        label@ == human_readable(*path, known(home)),
{
    match strip_home(path, home) {
        Some(rest) => shown_path(true, path_to_str(&rest)),
        None => shown_path(false, path_to_str(path)),
    }
}

} // verus!
