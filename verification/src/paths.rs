//! Paths as texts, and the path rules of the platform behind names of their
//! own: the library reasons about what those rules yield, not about how.

use std::path::Path;
use vstd::prelude::*;

verus! {

/// Whether the path `path` is absolute under the path rules of the platform
/// that the library is built for.
pub uninterp spec fn is_absolute_path(path: Seq<char>) -> bool;

/// The path `path` adjoined to the path `base` under those rules.
pub uninterp spec fn joined_path(base: Seq<char>, path: Seq<char>) -> Seq<char>;

/// The extension of the file name of `path` under those rules, without its
/// dot; `None` where the path has no file name or the name has no extension.
pub uninterp spec fn extension_of(path: Seq<char>) -> Option<Seq<char>>;

/// What is left of `path` once the components of `base` are taken from its
/// front; `None` where `path` does not start with them.
pub uninterp spec fn without_prefix(path: Seq<char>, base: Seq<char>) -> Option<Seq<char>>;

/// `path` as it stands where it is absolute, else adjoined to `cwd`.
pub open spec fn resolved_path(cwd: Seq<char>, path: Seq<char>) -> Seq<char> {
    if is_absolute_path(path) {
        path
    } else {
        joined_path(cwd, path)
    }
}

/// `path` seen from `base`: without the prefix `base` where it has it, else
/// as it stands.
pub open spec fn relative_path(path: Seq<char>, base: Seq<char>) -> Seq<char> {
    match without_prefix(path, base) {
        Some(rest) => rest,
        None => path,
    }
}

/// `Path::is_absolute` on the path that `path` spells.
#[verifier::external_body]
pub(crate) fn is_absolute(path: &str) -> (b: bool)
    ensures
        b == is_absolute_path(path@),
{
    Path::new(path).is_absolute()
}

/// `Path::join` on the paths that `base` and `path` spell. Both being valid
/// Unicode, so is the result.
#[verifier::external_body]
pub(crate) fn join(base: &str, path: &str) -> (joined: String)
    ensures
        joined@ == joined_path(base@, path@),
{
    Path::new(base).join(path).to_string_lossy().into_owned()
}

/// `Path::extension` on the path that `path` spells.
#[verifier::external_body]
pub(crate) fn extension(path: &str) -> (ext: Option<String>)
    ensures
        match ext {
            Some(text) => extension_of(path@) == Some(text@),
            None => extension_of(path@) is None,
        },
{
    match Path::new(path).extension() {
        Some(ext) => Some(ext.to_string_lossy().into_owned()),
        None => None,
    }
}

/// `Path::strip_prefix` on the paths that `path` and `base` spell.
#[verifier::external_body]
pub(crate) fn strip_prefix(path: &str, base: &str) -> (rest: Option<String>)
    ensures
        match rest {
            Some(text) => without_prefix(path@, base@) == Some(text@),
            None => without_prefix(path@, base@) is None,
        },
{
    match Path::new(path).strip_prefix(base) {
        Ok(rest) => Some(rest.to_string_lossy().into_owned()),
        Err(_) => None,
    }
}

/// `std::path::MAIN_SEPARATOR`: the character that separates the components
/// of a path on this platform, a slash or a backslash.
#[verifier::external_body]
pub(crate) fn main_separator() -> (c: char)
    ensures
        c == '/' || c == '\\',
{
    std::path::MAIN_SEPARATOR
}

/// Resolves `path` against the working directory `cwd`.
pub fn resolve_from_cwd(cwd: &str, path: &str) -> (resolved: String)
    ensures
        resolved@ == resolved_path(cwd@, path@),
{
    if is_absolute(path) {
        path.to_owned()
    } else {
        join(cwd, path)
    }
}

/// `path` as seen from `base`.
pub fn relative_to(path: &str, base: &str) -> (relative: String)
    ensures
        relative@ == relative_path(path@, base@),
{
    match strip_prefix(path, base) {
        Some(rest) => rest,
        None => path.to_owned(),
    }
}

} // verus!
