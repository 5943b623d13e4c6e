//! What the library needs to know of file paths, taken from std's `Path`.
//!
//! The path names below are std's rules for the platform that the crate is built for
//! (`/` on Unix; `\\` and `/`, and drive prefixes, on Windows). Within one build each is
//! a function of its arguments alone.
use vstd::prelude::*;

verus! {

/// The extension of the file that `path` names, as `Path::extension` gives it
/// (`None` when there is no file name, no `.` in it, or only a leading `.`).
pub uninterp spec fn path_extension(path: Seq<char>) -> Option<Seq<char>>;

/// `s` in lower case, as `str::to_lowercase` gives it.
pub uninterp spec fn lowercased(s: Seq<char>) -> Seq<char>;

/// Whether `base` is a prefix of `path` by whole components, as `Path::starts_with`
/// decides it.
pub uninterp spec fn path_has_prefix(path: Seq<char>, base: Seq<char>) -> bool;

/// std's `Path::extension`, read as UTF-8 (the path is UTF-8 already).
///
/// Claims that the result is `path_extension` of the path; how std splits a path into
/// components is not restated here.
#[verifier::external_body]
pub fn file_extension(path: &str) -> (r: Option<String>)
    ensures
        r.deep_view() == path_extension(path@),
{
    std::path::Path::new(path).extension().and_then(|e| e.to_str()).map(|e| e.to_string())
}

/// std's `str::to_lowercase`. Claims that the result is `lowercased` of the argument.
#[verifier::external_body]
pub fn to_lowercase(s: &str) -> (r: String)
    ensures
        r@ == lowercased(s@),
{
    s.to_lowercase()
}

/// std's `Path::starts_with`. Claims that the result is `path_has_prefix` of the two
/// paths; the component rules of std are not restated here.
#[verifier::external_body]
pub fn path_starts_with(path: &str, base: &str) -> (r: bool)
    ensures
        r == path_has_prefix(path@, base@),
{
    std::path::Path::new(path).starts_with(base)
}

/// What std's `==` on `Path` compares of a path: its components. (std's `Path` is `Eq`,
/// so its `==` is an equivalence; `path_key` picks, for each class of paths that compare
/// equal, one value that all of them share and no other path has.)
pub uninterp spec fn path_key(path: Seq<char>) -> Seq<Seq<char>>;

/// Whether two paths are equal component by component, as `Path`'s `==` decides it.
pub open spec fn paths_equal(a: Seq<char>, b: Seq<char>) -> bool {
    path_key(a) == path_key(b)
}

/// The path `base` joined with `name`, as `Path::join` builds it.
pub uninterp spec fn joined_path(base: Seq<char>, name: Seq<char>) -> Seq<char>;

/// std's `==` on `Path`. Claims that it compares the paths' `path_key`s: std documents
/// `Path` as `Eq` (an equivalence, so a path always equals itself) that compares
/// components.
#[verifier::external_body]
pub fn same_path(a: &str, b: &str) -> (r: bool)
    ensures
        r == (path_key(a@) == path_key(b@)),
{
    std::path::Path::new(a) == std::path::Path::new(b)
}

/// std's `Path::join`, read back as UTF-8 (both parts are UTF-8 already). Claims that
/// the result is `joined_path` of the two parts.
#[verifier::external_body]
pub fn join_path(base: &str, name: &str) -> (r: String)
    ensures
        r@ == joined_path(base@, name@),
{
    std::path::Path::new(base).join(name).to_string_lossy().to_string()
}

/// The last component of `path`, as `Path::file_name` gives it (`None` when the path
/// ends in `..` or is a root).
pub uninterp spec fn path_file_name(path: Seq<char>) -> Option<Seq<char>>;

/// std's `Path::file_name`, read as UTF-8 (the path is UTF-8 already). Claims that the
/// result is `path_file_name` of the path.
#[verifier::external_body]
pub fn file_name(path: &str) -> (r: Option<String>)
    ensures
        r.deep_view() == path_file_name(path@),
{
    std::path::Path::new(path).file_name().and_then(|n| n.to_str()).map(|n| n.to_string())
}

/// The lower-cased extension of `path`, or the empty string when it has none
/// (`extension().to_lowercase().unwrap_or_default()`).
pub open spec fn lower_extension(path: Seq<char>) -> Seq<char> {
    match path_extension(path) {
        Some(e) => lowercased(e),
        None => seq![],
    }
}

/// Executable form of `lower_extension`.
pub fn lower_extension_of(path: &str) -> (r: String)
    ensures
        r@ == lower_extension(path@),
{
    match file_extension(path) {
        Some(e) => to_lowercase(e.as_str()),
        None => String::new(),
    }
}

} // verus!
