//! Path and text operations whose results come from std, each behind a
//! small wrapper whose contract names or states what std returns.

use std::path::Path;
use vstd::prelude::*;

use crate::errors::opt_text;

verus! {

/// The final component of a path, as `Path::file_name` gives it.
pub uninterp spec fn file_name_of(p: Seq<char>) -> Option<Seq<char>>;

/// A path without its final component, as `Path::parent` gives it.
pub uninterp spec fn parent_of(p: Seq<char>) -> Option<Seq<char>>;

/// Whether a path is absolute, as `Path::is_absolute` decides it.
pub uninterp spec fn absolute_of(p: Seq<char>) -> bool;

/// A path extended by one more part, as `Path::join` builds it.
pub uninterp spec fn joined_of(base: Seq<char>, part: Seq<char>) -> Seq<char>;

/// Whether two paths have the same components, as `Path`'s `==` decides it.
pub uninterp spec fn same_path_of(a: Seq<char>, b: Seq<char>) -> bool;

/// The lowercase form of a text, as `str::to_lowercase` gives it.
pub uninterp spec fn lower_of(s: Seq<char>) -> Seq<char>;

/// Index of the last `.` in a text, or -1 when it holds none.
pub open spec fn last_dot(s: Seq<char>) -> int
    decreases s.len(),
{
    if s.len() == 0 {
        -1
    } else if s.last() == '.' {
        s.len() - 1
    } else {
        last_dot(s.drop_last())
    }
}

/// The extension of a file name: the text after its last `.`, unless it has
/// no `.` or its only `.` is the first character.
pub open spec fn extension_in(name: Seq<char>) -> Option<Seq<char>> {
    if last_dot(name) <= 0 {
        None
    } else {
        Some(name.subrange(last_dot(name) + 1, name.len() as int))
    }
}

/// The extension of a path: that of its file name, if it has one.
pub open spec fn extension_of(p: Seq<char>) -> Option<Seq<char>> {
    match file_name_of(p) {
        Some(name) => extension_in(name),
        None => None,
    }
}

/// Relies on `Path::file_name`: the last component, if the path has one.
#[verifier::external_body]
pub(crate) fn file_name(p: &str) -> (r: Option<String>)
    ensures
        opt_text(r) == file_name_of(p@),
{
    Path::new(p).file_name().and_then(|n| n.to_str()).map(|n| n.to_string())
}

/// Relies on `Path::extension`, which the std documentation defines over the
/// file name: no extension without a `.` or when the only `.` comes first.
#[verifier::external_body]
pub(crate) fn extension(p: &str) -> (r: Option<String>)
    ensures
        opt_text(r) == extension_of(p@),
{
    Path::new(p).extension().and_then(|e| e.to_str()).map(|e| e.to_string())
}

/// Relies on `Path::parent`: the path without its last component.
#[verifier::external_body]
pub(crate) fn parent(p: &str) -> (r: Option<String>)
    ensures
        opt_text(r) == parent_of(p@),
{
    Path::new(p).parent().and_then(|q| q.to_str()).map(|q| q.to_string())
}

/// Relies on `Path::is_absolute`.
#[verifier::external_body]
pub(crate) fn is_absolute(p: &str) -> (r: bool)
    ensures
        r == absolute_of(p@),
{
    Path::new(p).is_absolute()
}

/// Relies on `Path::join`: the base path with one more part appended.
#[verifier::external_body]
pub(crate) fn join(base: &str, part: &str) -> (r: String)
    ensures
        r@ == joined_of(base@, part@),
{
    Path::new(base).join(part).to_string_lossy().into_owned()
}

/// Relies on `Path`'s `==`, which compares components; as an `Eq`, it holds
/// of two equal paths.
#[verifier::external_body]
pub(crate) fn same_path(a: &str, b: &str) -> (r: bool)
    ensures
        r == same_path_of(a@, b@),
        a@ == b@ ==> r,
{
    Path::new(a) == Path::new(b)
}

/// Relies on `str::to_lowercase`.
#[verifier::external_body]
pub(crate) fn lowercase(s: &str) -> (r: String)
    ensures
        r@ == lower_of(s@),
{
    s.to_lowercase()
}

} // verus!
