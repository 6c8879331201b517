//! Path arithmetic on UTF-8 paths. Paths are joined and taken apart by
//! `camino`, which follows the rules of the platform's path type; the
//! installer runs on Linux only, and it is the results there that the
//! names below stand for. This module gives those results a name and
//! claims nothing else of them.

use vstd::prelude::*;
use camino::Utf8Path;

verus! {

/// The path that `Utf8Path::join` makes of `base` and `rel`.
pub uninterp spec fn joined_path(base: Seq<char>, rel: Seq<char>) -> Seq<char>;

/// What `Utf8Path::strip_prefix` leaves of `path` once the components of
/// `base` are taken from its front; `None` when `path` does not start with
/// them.
pub uninterp spec fn path_without_prefix(path: Seq<char>, base: Seq<char>) -> Option<Seq<char>>;

/// The final component of `path` as `Utf8Path::file_name` gives it; `None`
/// when the path ends in `..` or has no component.
pub uninterp spec fn path_file_name(path: Seq<char>) -> Option<Seq<char>>;

/// Calls `camino::Utf8Path::join`: the result is `rel` adjoined to `base`
/// by the platform's rules, a function of the two paths alone.
#[verifier::external_body]
pub(crate) fn join(base: &str, rel: &str) -> (joined: String)
    ensures
        joined@ == joined_path(base@, rel@),
{
    Utf8Path::new(base).join(rel).into_string()
}

/// Calls `camino::Utf8Path::strip_prefix`: the result is the rest of `path`
/// behind `base` where `path` starts with it, and `None` otherwise, a
/// function of the two paths alone.
#[verifier::external_body]
pub(crate) fn strip_prefix(path: &str, base: &str) -> (rest: Option<String>)
    ensures
        rest.deep_view() == path_without_prefix(path@, base@),
{
    match Utf8Path::new(path).strip_prefix(base) {
        Ok(rest) => Some(rest.as_str().to_owned()),
        Err(_) => None,
    }
}

/// Calls `camino::Utf8Path::file_name`: the result is the last component of
/// `path` if it has one that is a name, a function of the path alone.
#[verifier::external_body]
pub(crate) fn file_name(path: &str) -> (name: Option<String>)
    ensures
        name.deep_view() == path_file_name(path@),
{
    match Utf8Path::new(path).file_name() {
        Some(name) => Some(name.to_owned()),
        None => None,
    }
}

} // verus!
