//! Path operations of `std::path`, on paths held as UTF-8 text.
use vstd::prelude::*;

verus! {

/// `Path::join`: `comp` appended to `base` with a separator between them,
/// or `comp` alone when it is absolute.
pub uninterp spec fn joined(base: Seq<char>, comp: Seq<char>) -> Seq<char>;

/// `Path::parent`.
pub uninterp spec fn parent_of(p: Seq<char>) -> Option<Seq<char>>;

/// `Path::with_extension`.
pub uninterp spec fn with_ext(p: Seq<char>, ext: Seq<char>) -> Seq<char>;

/// `Path::file_name`.
pub uninterp spec fn file_name_of(p: Seq<char>) -> Option<Seq<char>>;

/// Calls `Path::join`; the result is named `joined`.
#[verifier::external_body]
pub(crate) fn path_join(base: &str, comp: &str) -> (r: String)
    ensures
        r@ == joined(base@, comp@),
{
    std::path::Path::new(base).join(comp).to_string_lossy().into_owned()
}

/// Calls `Path::parent`; the result is named `parent_of`.
#[verifier::external_body]
pub(crate) fn path_parent(p: &str) -> (r: Option<String>)
    ensures
        match r {
            Some(s) => parent_of(p@) == Some(s@),
            None => parent_of(p@) is None,
        },
{
    match std::path::Path::new(p).parent() {
        Some(q) => Some(q.to_string_lossy().into_owned()),
        None => None,
    }
}

/// No path separator in the text: no slash, nor a backslash (a separator
/// on Windows).
pub open spec fn no_separator(s: Seq<char>) -> bool {
    forall|i: int| 0 <= i < s.len() ==> s[i] != '/' && s[i] != '\\'
}

/// Calls `Path::with_extension`; the result is named `with_ext`. The
/// `requires` keeps out an extension holding a path separator, on which
/// `with_extension` panics.
#[verifier::external_body]
pub(crate) fn path_with_extension(p: &str, ext: &str) -> (r: String)
    requires
        no_separator(ext@),
    ensures
        r@ == with_ext(p@, ext@),
{
    std::path::Path::new(p).with_extension(ext).to_string_lossy().into_owned()
}

/// Calls `Path::file_name`; the result is named `file_name_of`.
#[verifier::external_body]
pub(crate) fn path_file_name(p: &str) -> (r: Option<String>)
    ensures
        match r {
            Some(s) => file_name_of(p@) == Some(s@),
            None => file_name_of(p@) is None,
        },
{
    match std::path::Path::new(p).file_name() {
        Some(q) => Some(q.to_string_lossy().into_owned()),
        None => None,
    }
}

} // verus!
