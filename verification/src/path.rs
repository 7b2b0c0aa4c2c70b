//! The standard library's path operations, taken from text to text.
//!
//! Paths are held as plain text throughout this crate. What the path rules
//! of the platform the crate is built for make of such a text is computed
//! by `std::path` and is not proved here: each operation has a name for its
//! result, and the function that makes the call is believed to return
//! exactly that. The results are text again, since a path made from text is
//! cut and joined at separators and dots only.

use vstd::prelude::*;
use std::path::Path;

verus! {

/// The result of `std::path::Path::strip_prefix`: what is left of `path`
/// once the whole leading components that make up `prefix` are taken off,
/// or `None` where `path` does not begin with those components.
pub uninterp spec fn path_without_prefix(path: Seq<char>, prefix: Seq<char>) -> Option<Seq<char>>;

/// The result of `std::path::Path::extension`: the text after the last `.`
/// of the final component of `path`, or `None` where it has none.
pub uninterp spec fn path_extension(path: Seq<char>) -> Option<Seq<char>>;

/// The result of `std::path::Path::join`: `rest` adjoined to `root`.
pub uninterp spec fn path_join(root: Seq<char>, rest: Seq<char>) -> Seq<char>;

/// Calls `std::path::Path::strip_prefix` with `path` as the path and
/// `prefix` as the base. Believed, not proved: the remainder it returns, as
/// text, is `path_without_prefix` of the two texts, and it fails exactly
/// where that is `None`.
#[verifier::external_body]
pub(crate) fn strip_prefix(path: &str, prefix: &str) -> (rest: Option<String>)
    ensures
        rest.deep_view() == path_without_prefix(path@, prefix@),
{
    match Path::new(path).strip_prefix(prefix) {
        Ok(rest) => Some(rest.to_string_lossy().into_owned()),
        Err(_) => None,
    }
}

/// Calls `std::path::Path::extension` on `path`. Believed, not proved: the
/// extension it returns, as text, is `path_extension` of the text.
#[verifier::external_body]
pub(crate) fn extension(path: &str) -> (ext: Option<String>)
    ensures
        ext.deep_view() == path_extension(path@),
{
    match Path::new(path).extension() {
        Some(ext) => Some(ext.to_string_lossy().into_owned()),
        None => None,
    }
}

/// Calls `std::path::Path::join` with `root` as the base and `rest` as the
/// path to adjoin. Believed, not proved: the path it returns, as text, is
/// `path_join` of the two texts.
#[verifier::external_body]
pub(crate) fn join(root: &str, rest: &str) -> (joined: String)
    ensures
        joined@ == path_join(root@, rest@),
{
    Path::new(root).join(rest).to_string_lossy().into_owned()
}

} // verus!
