//! Installing SteamCMD: where it comes from, how its archive is read, and
//! which install paths are accepted.
//!
//! Downloading and writing files are done by the caller.
use vstd::prelude::*;
use crate::paths::{app_subdir, app_subdir_of, opt_view, path_join, spec_path_join};
use crate::steam_errors::SteamCmdError;
use crate::text::{ends_with, ends_with_chars, str_chars};

verus! {

/// SteamCMD download URL for Linux.
pub const STEAMCMD_DOWNLOAD_URL_LINUX: &'static str =
    "https://steamcdn-a.akamaihd.net/client/installer/steamcmd_linux.tar.gz";

/// SteamCMD download URL for Windows.
pub const STEAMCMD_DOWNLOAD_URL_WINDOWS: &'static str =
    "https://steamcdn-a.akamaihd.net/client/installer/steamcmd.zip";

/// The SteamCMD archive to download: the ZIP on Windows, the gzipped tar
/// elsewhere.
pub fn steamcmd_download_url(windows: bool) -> (url: &'static str)
    ensures
        windows ==> url == STEAMCMD_DOWNLOAD_URL_WINDOWS,
        !windows ==> url == STEAMCMD_DOWNLOAD_URL_LINUX,
{
    if windows {
        STEAMCMD_DOWNLOAD_URL_WINDOWS
    } else {
        STEAMCMD_DOWNLOAD_URL_LINUX
    }
}

/// The SteamCMD binary's name: `steamcmd.exe` on Windows, else `steamcmd`.
pub open spec fn steamcmd_binary_name(windows: bool) -> Seq<char> {
    if windows {
        "steamcmd.exe"@
    } else {
        "steamcmd"@
    }
}

/// The installed SteamCMD binary in an install directory.
pub fn installed_steamcmd_path(install_dir: &str, windows: bool) -> (p: String)
    ensures
        p@ == spec_path_join(install_dir@, steamcmd_binary_name(windows)),
{
    if windows {
        path_join(install_dir, "steamcmd.exe")
    } else {
        path_join(install_dir, "steamcmd")
    }
}

/// Where SteamCMD is installed when it has to be downloaded:
/// `{local data dir}/ArkServerManager/steamcmd`.
pub fn default_steamcmd_install_dir(local_data: &Option<String>) -> (d: String)
    ensures
        d@ == app_subdir(opt_view(*local_data), "steamcmd"@),
{
    app_subdir_of(local_data, "steamcmd")
}

/// The kind of a downloaded SteamCMD archive.
#[derive(Clone, Copy, Debug, PartialEq, Eq, Structural)]
pub enum ArchiveFormat {
    /// A ZIP archive (Windows).
    Zip,
    /// A gzip-compressed tar archive (Linux).
    TarGz,
}

/// The kind of an archive by its first bytes: `PK` is a ZIP archive,
/// `1f 8b` a gzip stream; fewer than two bytes is an invalid archive and
/// anything else an unknown format.
pub open spec fn archive_format(data: Seq<u8>) -> Result<ArchiveFormat, Seq<char>> {
    if data.len() < 2 {
        Err("Invalid archive"@)
    } else if data[0] == 0x50 && data[1] == 0x4B {
        Ok(ArchiveFormat::Zip)
    } else if data[0] == 0x1F && data[1] == 0x8B {
        Ok(ArchiveFormat::TarGz)
    } else {
        Err("Unknown archive format"@)
    }
}

/// Decides how a downloaded SteamCMD archive is extracted (see
/// [`archive_format`]); an archive that cannot be extracted is an install
/// failure with the reason.
pub fn extract_steamcmd(data: &[u8]) -> (r: Result<ArchiveFormat, SteamCmdError>)
    ensures
        match archive_format(data@) {
            Ok(f) => r == Ok::<ArchiveFormat, SteamCmdError>(f),
            Err(m) => r matches Err(SteamCmdError::InstallFailed(x)) && x@ == m,
        },
{
    if data.len() < 2 {
        return Err(SteamCmdError::InstallFailed(String::from_str("Invalid archive")));
    }
    if data[0] == 0x50 && data[1] == 0x4B {
        Ok(ArchiveFormat::Zip)
    } else if data[0] == 0x1F && data[1] == 0x8B {
        Ok(ArchiveFormat::TarGz)
    } else {
        Err(SteamCmdError::InstallFailed(String::from_str("Unknown archive format")))
    }
}

/// Where an entry of the ZIP archive goes: its name joined to the install
/// directory, and whether it is a directory (its name ends with `/`).
pub fn zip_entry_target(install_dir: &str, name: &str) -> (r: (String, bool))
    ensures
        r.0@ == spec_path_join(install_dir@, name@),
        r.1 == ends_with(name@, "/"@),
{
    let target = path_join(install_dir, name);
    let chars = str_chars(name);
    let slash = str_chars("/");
    (target, ends_with_chars(&chars, &slash))
}

/// For each component of a path, whether it is `..` (what
/// `Path::components` yields, as `Component::ParentDir` or not).
pub uninterp spec fn spec_parent_dir_components(p: Seq<char>) -> Seq<bool>;

/// `std::path::Path::components`, each component told apart as
/// `Component::ParentDir` or another kind; the flags are named by
/// [`spec_parent_dir_components`].
#[verifier::external_body]
fn parent_dir_components(p: &str) -> (r: Vec<bool>)
    ensures
        r@ == spec_parent_dir_components(p@),
{
    std::path::Path::new(p).components().map(|c| match c {
        std::path::Component::ParentDir => true,
        _ => false,
    }).collect()
}

/// What `std::path::Path::is_absolute` returns for a path (by the rules of
/// the target's paths).
pub uninterp spec fn spec_path_is_absolute(p: Seq<char>) -> bool;

/// `std::path::Path::is_absolute`: whether the path is independent of the
/// current directory; named by [`spec_path_is_absolute`].
#[verifier::external_body]
fn path_is_absolute(p: &str) -> (r: bool)
    ensures
        r == spec_path_is_absolute(p@),
{
    std::path::Path::new(p).is_absolute()
}

/// `std::path::Path::canonicalize`: the canonical, absolute form of the path
/// with every link and `.`/`..` resolved, or `None` when it fails (the path
/// does not exist, for one). Which path it gives depends on the filesystem;
/// nothing is promised of it.
#[verifier::external_body]
fn path_canonicalize(p: &str) -> Option<String> {
    match std::path::Path::new(p).canonicalize() {
        Ok(c) => Some(c.to_string_lossy().into_owned()),
        Err(_) => None,
    }
}

/// Whether a path has a `..` component.
pub open spec fn has_parent_dir(p: Seq<char>) -> bool {
    spec_parent_dir_components(p).contains(true)
}

/// Checks a canonicalized install path: a path that could not be
/// canonicalized, one that is not absolute (which canonicalizing never
/// gives) or one with a `..` component is refused as path traversal; any
/// other is accepted as it is.
pub fn check_canonical_path(canonical: Option<String>) -> (r: Result<String, SteamCmdError>)
    ensures
        match canonical {
            None => r == Err::<String, SteamCmdError>(SteamCmdError::PathTraversal),
            Some(c) => if !spec_path_is_absolute(c@) || has_parent_dir(c@) {
                r == Err::<String, SteamCmdError>(SteamCmdError::PathTraversal)
            } else {
                r == Ok::<String, SteamCmdError>(c)
            },
        },
{
    let c = match canonical {
        Some(c) => c,
        None => return Err(SteamCmdError::PathTraversal),
    };
    if !path_is_absolute(c.as_str()) {
        return Err(SteamCmdError::PathTraversal);
    }
    let flags = parent_dir_components(c.as_str());
    let mut i: usize = 0;
    while i < flags.len()
        invariant
            i <= flags@.len(),
            flags@ == spec_parent_dir_components(c@),
            canonical == Some(c),
            forall|j: int| 0 <= j < i ==> !flags@[j],
        decreases flags.len() - i,
    {
        if flags[i] {
            assert(flags@[i as int]);
            assert(flags@.contains(true));
            assert(has_parent_dir(c@));
            return Err(SteamCmdError::PathTraversal);
        }
        i = i + 1;
    }
    assert(!flags@.contains(true));
    Ok(c)
}

/// Sanitizes an install path to prevent path traversal: canonicalizes it and
/// checks the result (see [`check_canonical_path`]). What canonicalizing
/// gives depends on the filesystem; whatever it gave, an accepted path is
/// absolute and has no `..` component, and every refusal is `PathTraversal`.
pub fn sanitize_install_path(path: &str) -> (r: Result<String, SteamCmdError>)
    ensures
        r matches Ok(c) ==> !has_parent_dir(c@) && spec_path_is_absolute(c@),
        r matches Err(e) ==> e == SteamCmdError::PathTraversal,
{
    check_canonical_path(path_canonicalize(path))
}

} // verus!
