//! Installing, updating and verifying a profile's server with SteamCMD:
//! where it goes, which SteamCMD is used, what is recorded in the profile
//! and what is reported.
//!
//! Loading and saving profiles, running SteamCMD and downloading it are done
//! by the caller.
use vstd::prelude::*;
use crate::build_id_checker::BuildIdInfo;
use crate::paths::{app_subdir, app_subdir_of, data_local_dir, opt_view, path_file_name, path_join, path_parent,
    spec_path_file_name, spec_path_join, spec_path_parent};
use crate::profile::Profile;
use crate::steam_errors::{steam_error_message, SteamCmdError};
use crate::steamcmd_installer::{has_parent_dir, sanitize_install_path, spec_path_is_absolute};
use crate::steamcmd_runner::{output_reports_success, reports_success};
use crate::text::{chars_to_string, decimal, decimal_chars, extend_with_str, str_eq};
use crate::update_manager::UpdateResult;

verus! {

/// Result of a SteamCMD operation.
#[derive(Clone, Debug)]
pub struct SteamCmdResult {
    /// Whether the operation succeeded.
    pub success: bool,
    /// Human-readable outcome.
    pub message: String,
    /// SteamCMD's output, when there is one.
    pub output: Option<String>,
}

/// SteamCMD status for a profile.
#[derive(Clone, Debug)]
pub struct SteamCmdStatus {
    /// Whether SteamCMD was found.
    pub steamcmd_found: bool,
    /// Where it was found.
    pub steamcmd_path: Option<String>,
    /// The profile's last verified build id.
    pub build_id: Option<String>,
    /// Whether an update is available.
    pub update_available: bool,
    /// The installed build.
    pub current_build: Option<u64>,
    /// The build available from Steam.
    pub available_build: Option<u64>,
}

/// The ARK root above its executable (`ShooterGame/Binaries/Win64` holds
/// the executable): four levels up, when the path goes that far.
pub open spec fn root_above_exe(exe: Seq<char>) -> Option<Seq<char>> {
    match spec_path_parent(exe) {
        Some(a) => match spec_path_parent(a) {
            Some(b) => match spec_path_parent(b) {
                Some(c) => spec_path_parent(c),
                None => None,
            },
            None => None,
        },
        None => None,
    }
}

/// Where a profile's server is installed, before sanitizing: its SteamCMD
/// install directory when set; else its custom install path (when it names
/// `ShooterGameServer.exe`, the ARK root above it, if the path goes that
/// far); else `{local data dir}/ArkServerManager/servers/{name}`.
pub open spec fn install_dir_candidate(p: Profile, local: Option<Seq<char>>) -> Seq<char> {
    let fallback = spec_path_join(app_subdir(local, "servers"@), p.name@);
    match p.steamcmd_install_dir {
        Some(d) => d@,
        None => match p.server_install_path {
            Some(sp) => if spec_path_file_name(sp@) == Some("ShooterGameServer.exe"@) {
                match root_above_exe(sp@) {
                    Some(r) => r,
                    None => fallback,
                }
            } else {
                sp@
            },
            None => fallback,
        },
    }
}

/// The ARK root above an executable (see [`root_above_exe`]).
fn exe_install_root(exe: &str) -> (r: Option<String>)
    ensures
        opt_view(r) == root_above_exe(exe@),
{
    let a = match path_parent(exe) {
        Some(a) => a,
        None => return None,
    };
    let b = match path_parent(a.as_str()) {
        Some(b) => b,
        None => return None,
    };
    let c = match path_parent(b.as_str()) {
        Some(c) => c,
        None => return None,
    };
    path_parent(c.as_str())
}

/// The candidate install directory of a profile for a local data directory
/// (see [`install_dir_candidate`]).
pub fn install_dir_candidate_for(profile: &Profile, local: &Option<String>) -> (d: String)
    ensures
        d@ == install_dir_candidate(*profile, opt_view(*local)),
{
    match &profile.steamcmd_install_dir {
        Some(d) => return d.clone(),
        None => {},
    }
    match &profile.server_install_path {
        Some(sp) => {
            let names_exe = match path_file_name(sp.as_str()) {
                Some(n) => str_eq(n.as_str(), "ShooterGameServer.exe"),
                None => false,
            };
            if !names_exe {
                return sp.clone();
            }
            match exe_install_root(sp.as_str()) {
                Some(r) => return r,
                None => {},
            }
        },
        None => {},
    }
    let servers = app_subdir_of(local, "servers");
    path_join(servers.as_str(), profile.name.as_str())
}

/// Resolves the install directory of a profile: its candidate (see
/// [`install_dir_candidate`]) sanitized (see [`sanitize_install_path`]).
/// Whatever the filesystem gave, an accepted directory is absolute and has
/// no `..` component, and every refusal is `PathTraversal`.
pub fn resolve_install_dir(profile: &Profile) -> (r: Result<String, SteamCmdError>)
    ensures
        r matches Ok(c) ==> !has_parent_dir(c@) && spec_path_is_absolute(c@),
        r matches Err(e) ==> e == SteamCmdError::PathTraversal,
{
    let local = data_local_dir();
    let candidate = install_dir_candidate_for(profile, &local);
    sanitize_install_path(candidate.as_str())
}

/// Which SteamCMD is used.
#[derive(Clone, Debug)]
pub enum SteamCmdChoice {
    /// This one.
    Use(String),
    /// None was found: it is downloaded and installed.
    Install,
}

/// Picks the SteamCMD to use: the profile's own path when it is valid, else
/// the detected one, else it is to be installed.
pub fn choose_steamcmd(override_path: Option<String>, override_valid: bool, detected: Option<String>) -> (c: SteamCmdChoice)
    ensures
        (override_path is Some && override_valid) ==> c == SteamCmdChoice::Use(override_path->0),
        !(override_path is Some && override_valid) ==> match detected {
            Some(d) => c == SteamCmdChoice::Use(d),
            None => c == SteamCmdChoice::Install,
        },
{
    match override_path {
        Some(p) => {
            if override_valid {
                return SteamCmdChoice::Use(p);
            }
        },
        None => {},
    }
    match detected {
        Some(d) => SteamCmdChoice::Use(d),
        None => SteamCmdChoice::Install,
    }
}

/// The message of an operation that failed with a SteamCMD error.
pub fn failure_text(prefix: &str, e: &SteamCmdError) -> (s: String)
    ensures
        s@ == prefix@ + steam_error_message(*e),
{
    let mut v: Vec<char> = Vec::new();
    extend_with_str(&mut v, prefix);
    let m = e.message();
    extend_with_str(&mut v, m.as_str());
    chars_to_string(&v)
}

/// The result of an install run: its output on success; on failure the
/// error's message, without output.
pub fn install_outcome(result: Result<String, SteamCmdError>) -> (r: SteamCmdResult)
    ensures
        match result {
            Ok(o) => r.success && r.message@ == "ARK server installed successfully"@ && r.output == Some(o),
            Err(e) => !r.success && r.message@ == "Install failed: "@ + steam_error_message(e) && r.output is None,
        },
{
    match result {
        Ok(output) => SteamCmdResult {
            success: true,
            message: String::from_str("ARK server installed successfully"),
            output: Some(output),
        },
        Err(e) => SteamCmdResult {
            success: false,
            message: failure_text("Install failed: ", &e),
            output: None,
        },
    }
}

/// The result of an update: successful, saying whether the server was
/// updated or already up to date, with the update's output.
pub fn update_outcome(result: UpdateResult) -> (r: SteamCmdResult)
    ensures
        r.success,
        result.updated ==> r.message@ == "Server updated successfully"@,
        !result.updated ==> r.message@ == "Server is already up to date"@,
        r.output == Some(result.output),
{
    let message = if result.updated {
        String::from_str("Server updated successfully")
    } else {
        String::from_str("Server is already up to date")
    };
    SteamCmdResult { success: true, message, output: Some(result.output) }
}

/// The refusal of an update while the server runs.
pub fn update_refused_while_running() -> (s: String)
    ensures
        s@ == "Cannot update: server is currently running. Stop the server first."@,
{
    String::from_str("Cannot update: server is currently running. Stop the server first.")
}

/// The result of a verification run: successful when its output reports
/// success (see [`reports_success`]), with the output.
pub fn verify_outcome(output: String) -> (r: SteamCmdResult)
    ensures
        r.success == reports_success(output@),
        r.success ==> r.message@ == "Server verification successful"@,
        !r.success ==> r.message@ == "Server verification failed - files may be corrupted"@,
        r.output == Some(output),
{
    let success = output_reports_success(output.as_str());
    let message = if success {
        String::from_str("Server verification successful")
    } else {
        String::from_str("Server verification failed - files may be corrupted")
    };
    SteamCmdResult { success, message, output: Some(output) }
}

/// A build id as the text stored in a profile.
pub open spec fn build_text(build: Option<u64>) -> Option<Seq<char>> {
    match build {
        Some(b) => Some(decimal(b as nat)),
        None => None,
    }
}

fn build_string(build: Option<u64>) -> (s: Option<String>)
    ensures
        opt_view(s) == build_text(build),
{
    match build {
        Some(b) => {
            let digits = decimal_chars(b);
            Some(chars_to_string(&digits))
        },
        None => None,
    }
}

/// Records in a profile the build id read after a verification (and, after
/// an install, where the server was installed).
pub fn record_verified_build(profile: &mut Profile, build: Option<u64>, install_dir: Option<String>)
    ensures
        opt_view(final(profile).last_verified_build_id) == build_text(build),
        install_dir is Some ==> final(profile).steamcmd_install_dir == install_dir,
        install_dir is None ==> final(profile).steamcmd_install_dir == old(profile).steamcmd_install_dir,
        *final(profile) == (Profile {
            last_verified_build_id: final(profile).last_verified_build_id,
            steamcmd_install_dir: final(profile).steamcmd_install_dir,
            ..*old(profile)
        }),
{
    profile.last_verified_build_id = build_string(build);
    match install_dir {
        Some(d) => profile.steamcmd_install_dir = Some(d),
        None => {},
    }
}

/// Records in a profile the build an update brought: when the server was
/// updated and the check made before it is known, its available build.
pub fn record_update(profile: &mut Profile, result: &UpdateResult)
    ensures
        (result.updated && result.build_ids is Some) ==> opt_view(final(profile).last_verified_build_id)
            == build_text(result.build_ids->0.available_build),
        !(result.updated && result.build_ids is Some) ==> final(profile).last_verified_build_id
            == old(profile).last_verified_build_id,
        *final(profile) == (Profile { last_verified_build_id: final(profile).last_verified_build_id, ..*old(profile) }),
{
    if result.updated {
        match &result.build_ids {
            Some(ids) => profile.last_verified_build_id = build_string(ids.available_build),
            None => {},
        }
    }
}

/// What to check for updates when reporting a profile's SteamCMD status:
/// the found SteamCMD and the profile's install directory, when both are
/// known.
pub fn status_check_target(steamcmd_path: &Option<String>, profile: &Option<Profile>) -> (r: Option<(String, String)>)
    ensures
        match (steamcmd_path, profile) {
            (Some(s), Some(p)) => match p.steamcmd_install_dir {
                Some(d) => r == Some((*s, d)),
                None => r is None,
            },
            _ => r is None,
        },
{
    match (steamcmd_path, profile) {
        (Some(s), Some(p)) => match &p.steamcmd_install_dir {
            Some(d) => Some((s.clone(), d.clone())),
            None => None,
        },
        _ => None,
    }
}

/// The SteamCMD status of a profile: whether and where SteamCMD was found,
/// the profile's last verified build, and what the update check gave (no
/// update and no builds when there was no check or it failed).
pub fn steamcmd_status(steamcmd_path: Option<String>, profile: &Option<Profile>, check: Option<Result<BuildIdInfo, SteamCmdError>>) -> (s: SteamCmdStatus)
    ensures
        s.steamcmd_found == steamcmd_path is Some,
        s.steamcmd_path == steamcmd_path,
        s.build_id == match profile {
            Some(p) => p.last_verified_build_id,
            None => None,
        },
        match check {
            Some(Ok(info)) => s.update_available == info.update_available && s.current_build
                == info.current_build && s.available_build == info.available_build,
            _ => !s.update_available && s.current_build is None && s.available_build is None,
        },
{
    let build_id = match profile {
        Some(p) => p.last_verified_build_id.clone(),
        None => None,
    };
    let (update_available, current_build, available_build) = match check {
        Some(Ok(info)) => (info.update_available, info.current_build, info.available_build),
        _ => (false, None, None),
    };
    SteamCmdStatus {
        steamcmd_found: steamcmd_path.is_some(),
        steamcmd_path,
        build_id,
        update_available,
        current_build,
        available_build,
    }
}

} // verus!
