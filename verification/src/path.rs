//! File paths.
//!
//! A path is carried as the standard library's `PathBuf`. What the library reads
//! of it goes through the functions below.

use std::path::PathBuf;

use vstd::prelude::*;

verus! {

/// `std::path::PathBuf`, an owned file path.
#[verifier::external_type_specification]
#[verifier::external_body]
pub struct ExPathBuf(PathBuf);

/// The bytes that a path holds, in the encoding of the platform.
pub uninterp spec fn path_bytes(path: PathBuf) -> Seq<u8>;

/// What a path with these bytes is told apart from other paths by.
pub uninterp spec fn told_apart_by(bytes: Seq<u8>) -> Seq<u8>;

/// The last component of a path with these bytes, where it has one that is
/// valid text.
pub uninterp spec fn last_component(bytes: Seq<u8>) -> Option<Seq<char>>;

/// The text that a path with these bytes is shown as.
pub uninterp spec fn shown_text(bytes: Seq<u8>) -> Seq<char>;

/// `PathBuf::clone`: the copy is the same path.
pub assume_specification[ <PathBuf as Clone>::clone ](path: &PathBuf) -> (copy: PathBuf)
    ensures
        copy == *path,
;

/// `PathBuf` equality, an equivalence on paths: two paths are equal exactly when
/// they are told apart by the same. Which paths those are, beyond the ones with
/// the same bytes, is not stated.
#[verifier::external_body]
pub(crate) fn same_path(a: &PathBuf, b: &PathBuf) -> (same: bool)
    ensures
        same == (told_apart_by(path_bytes(*a)) == told_apart_by(path_bytes(*b))),
{
    a == b
}

/// Whether two paths are equal.
pub open spec fn equal_paths(a: PathBuf, b: PathBuf) -> bool {
    told_apart_by(path_bytes(a)) == told_apart_by(path_bytes(b))
}

/// `Path::file_name`, read as text by `OsStr::to_str`: the last component where
/// there is one and it is valid text.
#[verifier::external_body]
fn last_component_text(path: &PathBuf) -> (name: Option<String>)
    ensures
        name is Some == last_component(path_bytes(*path)) is Some,
        name matches Some(text) ==> Some(text@) == last_component(path_bytes(*path)),
{
    path.file_name().and_then(|name| name.to_str()).map(|name| name.to_owned())
}

/// `Path::display`, written out: the path as text, lossy where it is not valid
/// text.
#[verifier::external_body]
fn display_text(path: &PathBuf) -> (text: String)
    ensures
        text@ == shown_text(path_bytes(*path)),
{
    path.display().to_string()
}

/// The label of a path: its last component, else the whole path as shown.
pub open spec fn path_label(path: PathBuf) -> Seq<char> {
    match last_component(path_bytes(path)) {
        Some(name) => name,
        None => shown_text(path_bytes(path)),
    }
}

/// The label of a path whose last component and shown text are given.
pub fn label_from(name: Option<String>, shown: String) -> (label: String)
    ensures
        label@ == (match name {
            Some(text) => text@,
            None => shown@,
        }),
{
    match name {
        Some(text) => text,
        None => shown,
    }
}

/// Return a display label for a drag path.
#[must_use]
pub fn file_name(path: &PathBuf) -> (label: String)
    ensures
        label@ == path_label(*path),
{
    label_from(last_component_text(path), display_text(path))
}

/// Copy a list of paths.
pub fn copy_paths(paths: &Vec<PathBuf>) -> (copy: Vec<PathBuf>)
    ensures
        copy@ == paths@,
{
    let mut out: Vec<PathBuf> = Vec::new();
    for i in 0..paths.len()
        invariant
            out@ == paths@.take(i as int),
    {
        out.push(paths[i].clone());
        assert(paths@.take(i + 1) == paths@.take(i as int).push(paths@[i as int]));
    }
    assert(paths@.take(paths@.len() as int) == paths@);
    out
}

/// Whether some path of a list equals `path`.
pub open spec fn holds_path(paths: Seq<PathBuf>, path: PathBuf) -> bool {
    exists|i: int| 0 <= i < paths.len() && equal_paths(#[trigger] paths[i], path)
}

/// Whether a list holds a path equal to `path`.
pub fn contains_path(paths: &Vec<PathBuf>, path: &PathBuf) -> (found: bool)
    ensures
        found == holds_path(paths@, *path),
{
    for i in 0..paths.len()
        invariant
            forall|k: int| 0 <= k < i ==> !equal_paths(#[trigger] paths@[k], *path),
    {
        if same_path(&paths[i], path) {
            return true;
        }
    }
    false
}

} // verus!
