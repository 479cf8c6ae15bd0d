//! File paths as text, taken apart and put together by `std::path`.
//!
//! The four functions at the end are not verified: each hands its arguments
//! to one function of `std::path`, and its contract gives the result a name.
//! What a name stands for is fixed for one target platform; separators and
//! prefixes differ between platforms, and no law of the names is stated.

use vstd::prelude::*;

verus! {

/// The last component of `path`, as `std::path::Path::file_name` finds it.
pub uninterp spec fn path_file_name(path: Seq<char>) -> Option<Seq<char>>;

/// `path` without its last component, as `std::path::Path::parent` finds it.
pub uninterp spec fn path_parent(path: Seq<char>) -> Option<Seq<char>>;

/// `rel` appended to `base`, as `std::path::Path::join` does it.
pub uninterp spec fn path_join(base: Seq<char>, rel: Seq<char>) -> Seq<char>;

/// `path` with its last component replaced by `name`, as
/// `std::path::PathBuf::set_file_name` does it.
pub uninterp spec fn path_with_file_name(path: Seq<char>, name: Seq<char>) -> Seq<char>;

/// Calls `std::path::Path::file_name` on `path`. The contract only names
/// the result; it is a part of `path`, so it is text again.
#[verifier::external_body]
pub(crate) fn file_name(path: &str) -> (r: Option<&str>)
    ensures
        match r {
            Some(name) => path_file_name(path@) == Some(name@),
            None => path_file_name(path@).is_none(),
        },
{
    match std::path::Path::new(path).file_name() {
        Some(name) => name.to_str(),
        None => None,
    }
}

/// Calls `std::path::Path::parent` on `path`. The contract only names the
/// result; it is a part of `path`, so it is text again.
#[verifier::external_body]
pub(crate) fn parent(path: &str) -> (r: Option<&str>)
    ensures
        match r {
            Some(dir) => path_parent(path@) == Some(dir@),
            None => path_parent(path@).is_none(),
        },
{
    match std::path::Path::new(path).parent() {
        Some(dir) => dir.to_str(),
        None => None,
    }
}

/// Calls `std::path::Path::join` on `base` with `rel`. The contract only
/// names the result.
#[verifier::external_body]
pub(crate) fn join(base: &str, rel: &str) -> (r: String)
    ensures
        r@ == path_join(base@, rel@),
{
    std::path::Path::new(base).join(rel).to_string_lossy().into_owned()
}

/// Calls `std::path::PathBuf::set_file_name` on a copy of `path` with
/// `name`. The contract only names the result.
#[verifier::external_body]
pub(crate) fn with_file_name(path: &str, name: &str) -> (r: String)
    ensures
        r@ == path_with_file_name(path@, name@),
{
    let mut buf = std::path::PathBuf::from(path);
    buf.set_file_name(name);
    buf.to_string_lossy().into_owned()
}

} // verus!
