//! What this library takes on trust from the standard library: the types
//! it only carries around, and the few calls whose results it relies on.
//!
//! A path is never looked into here. What the standard library makes of a
//! path (its text, how it reads on screen, whether it equals another, what
//! lies below a prefix) is given a name, so that contracts can say which of
//! these went where; nothing is claimed of what those results are, but that
//! a path equals itself.

use std::path::PathBuf;
use vstd::prelude::*;
use vstd::utf8::*;

verus! {

/// `std::path::PathBuf`, carried through without looking inside.
#[verifier::external_type_specification]
#[verifier::external_body]
pub struct ExPathBuf(std::path::PathBuf);

/// `std::io::Error`, carried through without looking inside.
#[verifier::external_type_specification]
#[verifier::external_body]
pub struct ExIoError(std::io::Error);

/// Whether `PathBuf`'s `==` holds two paths to be equal.
pub uninterp spec fn path_matches(a: PathBuf, b: PathBuf) -> bool;

/// What `Path::display` writes for a path.
pub uninterp spec fn displayed(path: PathBuf) -> Seq<char>;

/// What `Path::to_str` gives for a path: its text, if it has one.
pub uninterp spec fn path_text(path: PathBuf) -> Option<Seq<char>>;

/// What `Path::strip_prefix` gives for a path and a base: the rest of the
/// path, if the path starts with the base.
pub uninterp spec fn path_below(path: PathBuf, base: PathBuf) -> Option<PathBuf>;

/// `PathBuf::clone`: the copy is the same path.
pub assume_specification[ <PathBuf as Clone>::clone ](path: &PathBuf) -> (copy: PathBuf)
    ensures
        copy == *path,
;

/// `String::from_utf8`: succeeds exactly on valid UTF-8, and the string it
/// returns is made of the bytes it was given.
#[verifier::external_body]
pub(crate) fn string_from_utf8(bytes: Vec<u8>) -> (text: Option<String>)
    ensures
        text is Some <==> valid_utf8(bytes@),
        text matches Some(s) ==> encode_utf8(s@) == bytes@,
{
    String::from_utf8(bytes).ok()
}

/// `PathBuf`'s `==`. A path equals itself; paths spelled differently may be
/// equal too.
#[verifier::external_body]
pub(crate) fn same_path(a: &PathBuf, b: &PathBuf) -> (same: bool)
    ensures
        same == path_matches(*a, *b),
        *a == *b ==> same,
{
    a == b
}

/// `Path::display`, written out as a `String`.
#[verifier::external_body]
pub(crate) fn path_display(path: &PathBuf) -> (text: String)
    ensures
        text@ == displayed(*path),
{
    path.display().to_string()
}

/// `io::Error`'s `Display`, written out as a `String`. The wording comes
/// from the operating system, so nothing is stated of it.
#[verifier::external_body]
pub(crate) fn io_error_text(cause: &std::io::Error) -> (text: String) {
    cause.to_string()
}

/// `Path::strip_prefix`, the rest as a path of its own.
#[verifier::external_body]
pub(crate) fn strip_prefix(path: &PathBuf, base: &PathBuf) -> (rest: Option<PathBuf>)
    ensures
        rest == path_below(*path, *base),
{
    path.strip_prefix(base).ok().map(PathBuf::from)
}

/// `Path::to_str`, the text as a `String`.
#[verifier::external_body]
pub(crate) fn path_to_str(path: &PathBuf) -> (text: Option<String>)
    ensures
        path_text(*path) == match text {
            Some(text) => Some(text@),
            None => None,
        },
{
    path.to_str().map(String::from)
}

} // verus!
