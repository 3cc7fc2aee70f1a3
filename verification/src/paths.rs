//! File-system paths, held as text.
use vstd::prelude::*;

verus! {

/// The path that `Path::join` makes of `base` and `sub`.
pub uninterp spec fn path_join(base: Seq<char>, sub: Seq<char>) -> Seq<char>;

/// The path that `Path::parent` gives for `path`: `None` for a root, a
/// prefix or the empty path.
pub uninterp spec fn path_parent(path: Seq<char>) -> Option<Seq<char>>;

/// Calls `Path::join` on `base` and `sub`. Trusted: the result is `path_join(base, sub)`.
#[verifier::external_body]
pub(crate) fn join_path(base: &str, sub: &str) -> (res: String)
    ensures
        res@ == path_join(base@, sub@),
{
    std::path::Path::new(base).join(sub).to_string_lossy().into_owned()
}

/// Calls `Path::parent` on `path`. Trusted: the result is `path_parent(path)`.
#[verifier::external_body]
pub(crate) fn parent_dir(path: &str) -> (res: Option<String>)
    ensures
        match path_parent(path@) {
            Some(p) => res matches Some(r) && r@ == p,
            None => res is None,
        },
{
    std::path::Path::new(path).parent().map(|p| p.to_string_lossy().into_owned())
}

} // verus!
