//! The standard library's path operations the library relies on: joining
//! paths, and reading a path's parent and file name.
use vstd::prelude::*;
use vstd::string::*;


verus! {

/// The path `rel` joined onto `base`, as `Path::join` gives it on the
/// target platform (on Unix: an absolute `rel` replaces `base`, and one `/`
/// separates them otherwise).
pub uninterp spec fn path_joined(base: Seq<char>, rel: Seq<char>) -> Seq<char>;

/// The directory part of a path, as `Path::parent` gives it; `None` for a
/// path that has no parent (the root, or an empty path).
pub uninterp spec fn path_parent(path: Seq<char>) -> Option<Seq<char>>;

/// Calls `Path::parent` on `path`. The parent is a function of the path
/// alone, named `path_parent`.
#[verifier::external_body]
pub(crate) fn parent_of(path: &str) -> (res: Option<String>)
    ensures
        res.deep_view() == path_parent(path@),
{
    match std::path::Path::new(path).parent() {
        Some(p) => Some(p.to_string_lossy().into_owned()),
        None => None,
    }
}

/// The last component of a path, as `Path::file_name` gives it; `None`
/// when the path ends in `..` or has no component.
pub uninterp spec fn path_file_name(path: Seq<char>) -> Option<Seq<char>>;

/// Calls `Path::file_name` on `path`. The name is a function of the path
/// alone, named `path_file_name`.
#[verifier::external_body]
pub(crate) fn file_name_of(path: &str) -> (res: Option<String>)
    ensures
        res.deep_view() == path_file_name(path@),
{
    match std::path::Path::new(path).file_name() {
        Some(n) => Some(n.to_string_lossy().into_owned()),
        None => None,
    }
}

/// Calls `Path::join` on `base` and `rel`. The joined path is a function
/// of the two paths alone on a given platform, named `path_joined`.
#[verifier::external_body]
pub(crate) fn path_join(base: &str, rel: &str) -> (res: String)
    ensures
        res@ == path_joined(base@, rel@),
{
    std::path::Path::new(base).join(rel).to_string_lossy().into_owned()
}

} // verus!
