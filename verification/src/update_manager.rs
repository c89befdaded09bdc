//! ARK server updates: checking build ids and summing up an update.
//!
//! The SteamCMD runs themselves are made by the caller; the functions here
//! give the scripts and read what the runs returned.
use vstd::prelude::*;
use crate::build_id_checker::{build_ids_parse, build_info_of, parse_build_ids, BuildIdInfo};
use crate::paths::{path_strip_prefix, spec_path_strip_prefix};
use crate::server_state::{ServerHandle, ServerState};
use crate::steam_errors::SteamCmdError;
use crate::steamcmd_runner::{app_update_command, app_update_script};

verus! {

/// Update result.
#[derive(Clone, Debug)]
pub struct UpdateResult {
    /// Whether an update was performed.
    pub updated: bool,
    /// Previous build ID (if known).
    pub previous_build: Option<u64>,
    /// New build ID (if known).
    pub new_build: Option<u64>,
    /// Whether validation passed.
    pub validation_passed: bool,
    /// Output from steamcmd.
    pub output: String,
    /// Build IDs info for update check.
    pub build_ids: Option<BuildIdInfo>,
}

/// Whether a running server uses an executable inside the installation
/// directory (the directory is a prefix of its path, component by
/// component).
pub open spec fn server_running_in(handles: Map<Seq<char>, ServerHandle>, install_dir: Seq<char>) -> bool {
    exists|n: Seq<char>|
        #[trigger] handles.contains_key(n) && spec_path_strip_prefix(handles[n].ark_exe_path@, install_dir)
            is Some
}

/// Whether the server of an installation is running: whether one of the
/// running servers uses an executable inside its directory.
pub fn is_server_running(state: &ServerState, install_dir: &str) -> (r: bool)
    requires
        state.wf(),
    ensures
        r == server_running_in(state.handles(), install_dir@),
{
    let handles = state.all_handles();
    let names = handles.keys();
    proof {
        handles.lemma_names();
    }
    let ghost ns = names@.map_values(|s: String| s@);
    let mut i: usize = 0;
    while i < names.len()
        invariant
            i <= names@.len(),
            state.wf(),
            handles.view_map() == state.handles(),
            ns == names@.map_values(|s: String| s@),
            ns == handles.names(),
            forall|k: Seq<char>| handles.view_map().contains_key(k) <==> ns.contains(k),
            forall|j: int|
                0 <= j < i ==> spec_path_strip_prefix(
                    state.handles()[#[trigger] ns[j]].ark_exe_path@,
                    install_dir@,
                ) is None,
        decreases names.len() - i,
    {
        assert(ns[i as int] == names@[i as int]@);
        assert(ns.contains(ns[i as int]));
        match state.get_handle(names[i].as_str()) {
            Some(h) => {
                if path_strip_prefix(h.ark_exe_path.as_str(), install_dir).is_some() {
                    assert(state.handles().contains_key(ns[i as int]));
                    return true;
                }
            },
            None => {},
        }
        i = i + 1;
    }
    proof {
        assert forall|n: Seq<char>| #[trigger] state.handles().contains_key(n) implies spec_path_strip_prefix(
            state.handles()[n].ark_exe_path@,
            install_dir@,
        ) is None by {
            assert(ns.contains(n));
            let j = choose|j: int| 0 <= j < ns.len() && ns[j] == n;
            assert(spec_path_strip_prefix(state.handles()[ns[j]].ark_exe_path@, install_dir@) is None);
        }
    }
    false
}

/// Whether an update of an installation may go ahead: it is refused with
/// `ServerRunning` while a server of the installation runs.
pub fn check_update_allowed(state: &ServerState, install_dir: &str) -> (r: Result<(), SteamCmdError>)
    requires
        state.wf(),
    ensures
        server_running_in(state.handles(), install_dir@) ==> r == Err::<(), SteamCmdError>(
            SteamCmdError::ServerRunning,
        ),
        !server_running_in(state.handles(), install_dir@) ==> r is Ok,
{
    if is_server_running(state, install_dir) {
        Err(SteamCmdError::ServerRunning)
    } else {
        Ok(())
    }
}

/// The script line that checks the installed and available build ids:
/// `app_update 376030 -checksrc`.
pub fn build_check_script(install_dir: &str) -> (s: String)
    ensures
        s@ == app_update_script(install_dir@, " -checksrc"@),
{
    app_update_command(install_dir, " -checksrc")
}

/// The script line that installs or updates the server: `app_update 376030`.
pub fn update_script(install_dir: &str) -> (s: String)
    ensures
        s@ == app_update_script(install_dir@, ""@),
{
    app_update_command(install_dir, "")
}

/// Checks for available updates without applying them, from the outcome of
/// the build check run (see [`build_check_script`]): a failed run is its
/// error; a completed one gives the build ids its output reports.
pub fn check_for_updates(outcome: Result<String, SteamCmdError>) -> (r: Result<BuildIdInfo, SteamCmdError>)
    requires
        outcome matches Ok(o) ==> build_ids_parse(o@),
    ensures
        match outcome {
            Ok(o) => r matches Ok(info) && build_info_of(o@, info),
            Err(e) => r == Err::<BuildIdInfo, SteamCmdError>(e),
        },
{
    match outcome {
        Ok(o) => Ok(parse_build_ids(o.as_str())),
        Err(e) => Err(e),
    }
}

/// The error when every update attempt failed.
pub fn retries_exhausted() -> (e: SteamCmdError)
    ensures
        e matches SteamCmdError::DownloadFailed(m) && m@ == "Max retries exceeded"@,
{
    SteamCmdError::DownloadFailed(String::from_str("Max retries exceeded"))
}

/// Sums up an update from the build ids checked before and after it: the
/// server was updated when the installed build changed; the builds before
/// and after, the validation outcome and the update's output are kept, with
/// the check made before the update.
pub fn update_result(before: BuildIdInfo, after: BuildIdInfo, validation_passed: bool, output: String) -> (r: UpdateResult)
    ensures
        r.updated == (before.current_build != after.current_build),
        r.previous_build == before.current_build,
        r.new_build == after.current_build,
        r.validation_passed == validation_passed,
        r.output == output,
        r.build_ids == Some(before),
{
    let updated = match (before.current_build, after.current_build) {
        (Some(a), Some(b)) => a != b,
        (None, None) => false,
        _ => true,
    };
    UpdateResult {
        updated,
        previous_build: before.current_build,
        new_build: after.current_build,
        validation_passed,
        output,
        build_ids: Some(before),
    }
}

} // verus!
