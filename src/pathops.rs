use vstd::prelude::*;

verus! {

/// The path that camino's `Utf8Path::join` forms from a base and a path.
pub uninterp spec fn path_join(base: Seq<char>, p: Seq<char>) -> Seq<char>;

/// The path that camino's `Utf8Path::with_extension` forms from a path and
/// an extension.
pub uninterp spec fn path_with_extension(p: Seq<char>, ext: Seq<char>) -> Seq<char>;

/// The last component that camino's `Utf8Path::file_name` finds in a path.
pub uninterp spec fn path_file_name(p: Seq<char>) -> Option<Seq<char>>;

/// Relies on `camino::Utf8Path::join`: adjoins `p` to `base`.
#[verifier::external_body]
pub(crate) fn join(base: &str, p: &str) -> (r: String)
    ensures
        r@ == path_join(base@, p@),
{
    camino::Utf8Path::new(base).join(p).into_string()
}

/// Relies on `camino::Utf8Path::with_extension`: sets or replaces the
/// extension of the last component. std's `Path::set_extension`, which it
/// calls, panics on an extension that holds a path separator.
#[verifier::external_body]
pub(crate) fn with_extension(p: &str, ext: &str) -> (r: String)
    requires
        forall|i: int| 0 <= i < ext@.len() ==> ext@[i] != '/',
    ensures
        r@ == path_with_extension(p@, ext@),
{
    camino::Utf8Path::new(p).with_extension(ext).into_string()
}

/// Relies on `camino::Utf8Path::file_name`: the last component, `None`
/// where the path ends in `..` or is a bare root.
#[verifier::external_body]
pub(crate) fn file_name(p: &str) -> (r: Option<String>)
    ensures
        match r {
            Some(n) => path_file_name(p@) == Some(n@),
            None => path_file_name(p@) is None,
        },
{
    match camino::Utf8Path::new(p).file_name() {
        Some(n) => Some(n.to_string()),
        None => None,
    }
}

/// Relies on `std::path::Path::exists`: what it answers depends on the
/// file system, so nothing is stated of it.
#[verifier::external_body]
pub(crate) fn path_exists(p: &str) -> (r: bool) {
    std::path::Path::new(p).exists()
}

} // verus!
