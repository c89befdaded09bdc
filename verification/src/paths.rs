//! Filesystem paths as strings, decomposed by `std::path`.
//!
//! A path is held as a `String`. Taking a path apart follows the rules of
//! `std::path::Path` for the platform the crate is built for; each of these
//! operations is named here by an uninterpreted function of the path's text.
use vstd::prelude::*;

verus! {

/// What `Path::parent` returns for a path.
pub uninterp spec fn spec_path_parent(p: Seq<char>) -> Option<Seq<char>>;

/// What `Path::file_name` returns for a path.
pub uninterp spec fn spec_path_file_name(p: Seq<char>) -> Option<Seq<char>>;

/// What `Path::join` returns for a base path and a path to append.
pub uninterp spec fn spec_path_join(base: Seq<char>, tail: Seq<char>) -> Seq<char>;

/// What `Path::extension` returns for a path.
pub uninterp spec fn spec_path_extension(p: Seq<char>) -> Option<Seq<char>>;

/// `std::path::Path::parent`: the path without its final component, or
/// `None` for a root or an empty path. The parent is always shorter than the
/// path (it is a slice of it with the last component removed); nothing more
/// is said of the result than that it is `Path::parent`'s.
#[verifier::external_body]
pub(crate) fn path_parent(p: &str) -> (r: Option<String>)
    ensures
        r matches Some(q) ==> spec_path_parent(p@) == Some(q@) && q@.len() < p@.len(),
        r is None ==> spec_path_parent(p@) is None,
{
    std::path::Path::new(p).parent().map(|q| q.to_string_lossy().into_owned())
}

/// `std::path::Path::file_name`: the final component of the path, or `None`
/// when the path ends in `..` or has no final component.
#[verifier::external_body]
pub(crate) fn path_file_name(p: &str) -> (r: Option<String>)
    ensures
        r matches Some(q) ==> spec_path_file_name(p@) == Some(q@),
        r is None ==> spec_path_file_name(p@) is None,
{
    std::path::Path::new(p).file_name().map(|q| q.to_string_lossy().into_owned())
}

/// `std::path::Path::join`: `tail` appended to `base` with the platform's
/// separator (or `tail` alone when it is absolute).
#[verifier::external_body]
pub(crate) fn path_join(base: &str, tail: &str) -> (r: String)
    ensures
        r@ == spec_path_join(base@, tail@),
{
    std::path::Path::new(base).join(tail).to_string_lossy().into_owned()
}

/// `std::path::Path::extension`: the text after the last `.` of the file
/// name, when the file name has one that is not its first character.
#[verifier::external_body]
pub(crate) fn path_extension(p: &str) -> (r: Option<String>)
    ensures
        r matches Some(q) ==> spec_path_extension(p@) == Some(q@),
        r is None ==> spec_path_extension(p@) is None,
{
    std::path::Path::new(p).extension().map(|q| q.to_string_lossy().into_owned())
}


/// What `{:?}` prints for a path (its `Debug` text: quoted and escaped).
pub uninterp spec fn spec_path_debug(p: Seq<char>) -> Seq<char>;

/// `<Path as Debug>::fmt`: the path as `{:?}` prints it, in quotes with
/// special characters escaped; named by [`spec_path_debug`].
#[verifier::external_body]
pub(crate) fn path_debug(p: &str) -> (r: String)
    ensures
        r@ == spec_path_debug(p@),
{
    format!("{:?}", std::path::Path::new(p))
}

/// What `str::to_lowercase` returns for a text (Unicode lowercase mapping).
pub uninterp spec fn spec_lowercase(s: Seq<char>) -> Seq<char>;

/// `str::to_lowercase`: the text with every character mapped to lowercase
/// by the Unicode rules; named by [`spec_lowercase`].
#[verifier::external_body]
pub(crate) fn to_lowercase(s: &str) -> (r: String)
    ensures
        r@ == spec_lowercase(s@),
{
    s.to_lowercase()
}

/// `std::path::Path::exists`: whether something exists at the path on disk.
/// The answer depends on the filesystem at the time of the call; nothing is
/// promised of it.
#[verifier::external_body]
pub(crate) fn path_exists(p: &str) -> bool {
    std::path::Path::new(p).exists()
}

/// `std::path::Path::is_dir`: whether a directory exists at the path. The
/// answer depends on the filesystem at the time of the call; nothing is
/// promised of it.
#[verifier::external_body]
pub(crate) fn path_is_dir(p: &str) -> bool {
    std::path::Path::new(p).is_dir()
}

/// `std::path::Path::is_file`: whether a regular file exists at the path. The
/// answer depends on the filesystem at the time of the call; nothing is
/// promised of it.
#[verifier::external_body]
pub(crate) fn path_is_file(p: &str) -> bool {
    std::path::Path::new(p).is_file()
}

/// What `Path::strip_prefix` returns for a path and a base.
pub uninterp spec fn spec_path_strip_prefix(p: Seq<char>, base: Seq<char>) -> Option<Seq<char>>;

/// `std::path::Path::strip_prefix`: the path relative to `base` when `base`
/// is a prefix of it (component by component), else `None`.
#[verifier::external_body]
pub(crate) fn path_strip_prefix(p: &str, base: &str) -> (r: Option<String>)
    ensures
        r matches Some(q) ==> spec_path_strip_prefix(p@, base@) == Some(q@),
        r is None ==> spec_path_strip_prefix(p@, base@) is None,
{
    match std::path::Path::new(p).strip_prefix(base) {
        Ok(q) => Some(q.to_string_lossy().into_owned()),
        Err(_) => None,
    }
}

/// `dirs::data_dir`: the user's data directory (on Windows the roaming
/// application data folder), when the platform has one. It depends on the
/// environment of the process; nothing is promised of it.
#[verifier::external_body]
pub(crate) fn data_dir() -> Option<String> {
    dirs::data_dir().map(|p| p.to_string_lossy().into_owned())
}

/// `dirs::data_local_dir`: the user's local data directory (on Windows the
/// local application data folder), when the platform has one. It depends on
/// the environment of the process; nothing is promised of it.
#[verifier::external_body]
pub(crate) fn data_local_dir() -> Option<String> {
    dirs::data_local_dir().map(|p| p.to_string_lossy().into_owned())
}

/// The application's directory under a base data directory: the base
/// (`.` when there is none) joined with `ArkServerManager`.
pub open spec fn app_dir(base: Option<Seq<char>>) -> Seq<char> {
    spec_path_join(
        match base {
            Some(b) => b,
            None => "."@,
        },
        "ArkServerManager"@,
    )
}

/// A directory of the application: [`app_dir`] joined with `sub`.
pub open spec fn app_subdir(base: Option<Seq<char>>, sub: Seq<char>) -> Seq<char> {
    spec_path_join(app_dir(base), sub)
}

/// The view of an optional string.
pub open spec fn opt_view(o: Option<String>) -> Option<Seq<char>> {
    match o {
        Some(s) => Some(s@),
        None => None,
    }
}

/// Builds [`app_subdir`] for a base data directory.
pub fn app_subdir_of(base: &Option<String>, sub: &str) -> (r: String)
    ensures
        r@ == app_subdir(opt_view(*base), sub@),
{
    let root = match base {
        Some(b) => path_join(b.as_str(), "ArkServerManager"),
        None => path_join(".", "ArkServerManager"),
    };
    path_join(root.as_str(), sub)
}

} // verus!
