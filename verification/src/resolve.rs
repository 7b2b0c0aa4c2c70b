//! The path resolver: from a requested path and the serving policy to the
//! file to serve, or the reason why there is none.

use vstd::prelude::*;
use crate::error::ResolveError;
use crate::path::{extension, join, path_extension, path_join, path_without_prefix, strip_prefix};

verus! {

/// Whether a path with extension `ext` passes the whitelist `allowed`.
/// Without a whitelist every path passes, with or without an extension.
pub open spec fn extension_admitted(
    ext: Option<Seq<char>>,
    allowed: Option<Seq<Seq<char>>>,
) -> bool {
    match allowed {
        None => true,
        Some(list) => ext is Some && list.contains(ext->0),
    }
}

/// The outcome of resolving `path`: the prefix is taken off, the remainder's
/// extension is held against the whitelist, and the remainder is joined
/// onto `root`.
pub open spec fn resolve(
    path: Seq<char>,
    allowed: Option<Seq<Seq<char>>>,
    prefix: Seq<char>,
    root: Seq<char>,
) -> Result<Seq<char>, ResolveError> {
    match path_without_prefix(path, prefix) {
        None => Err(ResolveError::PrefixMismatch),
        Some(rest) => if extension_admitted(path_extension(rest), allowed) {
            Ok(path_join(root, rest))
        } else {
            Err(ResolveError::ExtensionMismatch)
        },
    }
}

/// The outcome `res` as text.
pub open spec fn outcome_text(res: Result<String, ResolveError>) -> Result<
    Seq<char>,
    ResolveError,
> {
    match res {
        Ok(file) => Ok(file@),
        Err(e) => Err(e),
    }
}

/// Decides whether `wanted` is one of the texts in `list`, compared
/// character for character.
fn contains_text(list: &Vec<String>, wanted: &String) -> (yes: bool)
    ensures
        yes == list.deep_view().contains(wanted@),
{
    let mut i: usize = 0;
    while i < list.len()
        invariant
            i <= list@.len(),
            forall|j: int| 0 <= j < i ==> list@[j]@ != wanted@,
        decreases list@.len() - i,
    {
        if list[i] == *wanted {
            assert(list.deep_view()[i as int] == wanted@);
            return true;
        }
        i = i + 1;
    }
    assert forall|j: int| 0 <= j < list.deep_view().len() implies list.deep_view()[j]
        != wanted@ by {
        assert(list@[j]@ != wanted@);
    }
    false
}

/// Decides whether the extension `ext` is on the whitelist `allowed`. A
/// missing extension is on no whitelist.
pub fn extension_allowed(ext: &Option<String>, allowed: &Vec<String>) -> (yes: bool)
    ensures
        yes == extension_admitted(ext.deep_view(), Some(allowed.deep_view())),
{
    match ext {
        None => false,
        Some(wanted) => contains_text(allowed, wanted),
    }
}

/// Resolves the requested `path` to the file to serve.
///
/// Fails with `PrefixMismatch` where `path` does not begin with `prefix` on
/// a component boundary. With a whitelist, fails with `ExtensionMismatch`
/// where the remainder has no extension or one that is not listed;
/// extensions are compared as given, without case folding. Otherwise the
/// result is the remainder joined onto `root`.
pub fn process_path(
    path: String,
    allowed_exts: &Option<Vec<String>>,
    prefix: &str,
    root: &str,
) -> (res: Result<String, ResolveError>)
    ensures
        outcome_text(res) == resolve(path@, allowed_exts.deep_view(), prefix@, root@),
{
    let rest = match strip_prefix(path.as_str(), prefix) {
        Some(rest) => rest,
        None => {
            return Err(ResolveError::PrefixMismatch);
        },
    };
    if let Some(allowed) = allowed_exts {
        let ext = extension(rest.as_str());
        if !extension_allowed(&ext, allowed) {
            return Err(ResolveError::ExtensionMismatch);
        }
    }
    Ok(join(root, rest.as_str()))
}

/// A path that begins with the prefix on a component boundary, and whose
/// remainder passes the whitelist, resolves to that remainder joined onto
/// the root, whatever the root is.
pub proof fn lemma_prefixed_path_resolves(
    path: Seq<char>,
    allowed: Option<Seq<Seq<char>>>,
    prefix: Seq<char>,
    root: Seq<char>,
)
    requires
        path_without_prefix(path, prefix) is Some,
        extension_admitted(path_extension(path_without_prefix(path, prefix)->0), allowed),
    ensures
        resolve(path, allowed, prefix, root) == Ok::<Seq<char>, ResolveError>(
            path_join(root, path_without_prefix(path, prefix)->0),
        ),
{
}

/// A path that does not begin with the prefix fails with `PrefixMismatch`,
/// with or without a whitelist.
pub proof fn lemma_unprefixed_path_fails(
    path: Seq<char>,
    allowed: Option<Seq<Seq<char>>>,
    prefix: Seq<char>,
    root: Seq<char>,
)
    requires
        path_without_prefix(path, prefix) is None,
    ensures
        resolve(path, allowed, prefix, root) == Err::<Seq<char>, ResolveError>(
            ResolveError::PrefixMismatch,
        ),
{
}

/// With a whitelist, the extension of what follows the prefix decides: a
/// remainder without an extension, or with one that is not listed, fails
/// with `ExtensionMismatch`; one with a listed extension resolves, to the
/// remainder joined onto the root.
pub proof fn lemma_whitelist_decides(
    path: Seq<char>,
    allowed: Seq<Seq<char>>,
    prefix: Seq<char>,
    root: Seq<char>,
)
    requires
        path_without_prefix(path, prefix) is Some,
    ensures
        ({
            let rest = path_without_prefix(path, prefix)->0;
            let ext = path_extension(rest);
            let res = resolve(path, Some(allowed), prefix, root);
            if ext is Some && allowed.contains(ext->0) {
                res == Ok::<Seq<char>, ResolveError>(path_join(root, rest))
            } else {
                res == Err::<Seq<char>, ResolveError>(ResolveError::ExtensionMismatch)
            }
        }),
{
}

/// Without a whitelist the extension is never looked at: the prefix alone
/// decides, and a path that begins with it resolves to its remainder
/// joined onto the root, whatever its extension, or without one.
pub proof fn lemma_no_whitelist_no_extension_check(
    path: Seq<char>,
    prefix: Seq<char>,
    root: Seq<char>,
)
    ensures
        resolve(path, None, prefix, root) == (match path_without_prefix(path, prefix) {
            Some(rest) => Ok::<Seq<char>, ResolveError>(path_join(root, rest)),
            None => Err::<Seq<char>, ResolveError>(ResolveError::PrefixMismatch),
        }),
        resolve(path, None, prefix, root) != Err::<Seq<char>, ResolveError>(
            ResolveError::ExtensionMismatch,
        ),
{
}

/// Resolving the same path under the same policy twice gives the same
/// outcome: whatever two calls of `process_path` on equal arguments
/// return, the two results are the same text or the same error.
pub proof fn lemma_resolution_is_repeatable(
    first: Result<String, ResolveError>,
    second: Result<String, ResolveError>,
    path: Seq<char>,
    allowed: Option<Seq<Seq<char>>>,
    prefix: Seq<char>,
    root: Seq<char>,
)
    requires
        outcome_text(first) == resolve(path, allowed, prefix, root),
        outcome_text(second) == resolve(path, allowed, prefix, root),
    ensures
        outcome_text(first) == outcome_text(second),
{
}

} // verus!
