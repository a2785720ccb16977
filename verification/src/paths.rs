//! Path helpers.  Paths are held as strings; the component rules are those of
//! `std::path::Path` on the platform the library is built for (Unix here).

use vstd::prelude::*;

verus! {

/// The last component of a path, as `Path::file_name` gives it.
pub uninterp spec fn path_file_name(p: Seq<char>) -> Option<Seq<char>>;

/// The extension of the last component, as `Path::extension` gives it.
pub uninterp spec fn path_extension(p: Seq<char>) -> Option<Seq<char>>;

/// The path without its last component, as `Path::parent` gives it.
pub uninterp spec fn path_parent(p: Seq<char>) -> Option<Seq<char>>;

/// `base` joined with `rest`, as `Path::join` gives it.
pub uninterp spec fn path_join(base: Seq<char>, rest: Seq<char>) -> Seq<char>;

/// Calls `Path::file_name`; the result is `path_file_name` of the argument.
#[verifier::external_body]
pub(crate) fn file_name(p: &str) -> (r: Option<String>)
    ensures
        r matches Some(s) ==> path_file_name(p@) == Some(s@),
        r is None ==> path_file_name(p@) is None,
{
    std::path::Path::new(p).file_name().map(|n| n.to_string_lossy().to_string())
}

/// Calls `Path::extension`; the result is `path_extension` of the argument.
#[verifier::external_body]
pub(crate) fn extension(p: &str) -> (r: Option<String>)
    ensures
        r matches Some(s) ==> path_extension(p@) == Some(s@),
        r is None ==> path_extension(p@) is None,
{
    std::path::Path::new(p).extension().map(|n| n.to_string_lossy().to_string())
}

/// Calls `Path::parent`; the result is `path_parent` of the argument.
#[verifier::external_body]
pub(crate) fn parent(p: &str) -> (r: Option<String>)
    ensures
        r matches Some(s) ==> path_parent(p@) == Some(s@),
        r is None ==> path_parent(p@) is None,
{
    std::path::Path::new(p).parent().map(|n| n.to_string_lossy().to_string())
}

/// Calls `Path::join`; the result is `path_join` of the arguments.
#[verifier::external_body]
pub(crate) fn join(base: &str, rest: &str) -> (r: String)
    ensures
        r@ == path_join(base@, rest@),
{
    std::path::Path::new(base).join(rest).to_string_lossy().to_string()
}

/// Whether `base` is a prefix of `p` by whole components, as
/// `Path::starts_with` decides.
pub uninterp spec fn path_starts_with(p: Seq<char>, base: Seq<char>) -> bool;

/// Whether two paths have the same components, as `Path`'s `==` decides.
pub uninterp spec fn path_eq(a: Seq<char>, b: Seq<char>) -> bool;

/// Calls `Path::starts_with`; the result is `path_starts_with` of the
/// arguments.
#[verifier::external_body]
pub(crate) fn starts_with(p: &str, base: &str) -> (r: bool)
    ensures
        r == path_starts_with(p@, base@),
{
    std::path::Path::new(p).starts_with(base)
}

/// Compares two paths with `Path`'s `==`; the result is `path_eq` of the
/// arguments.
#[verifier::external_body]
pub(crate) fn same_path(a: &str, b: &str) -> (r: bool)
    ensures
        r == path_eq(a@, b@),
{
    std::path::Path::new(a) == std::path::Path::new(b)
}

} // verus!
