use vstd::prelude::*;

pub mod backup;
pub mod build_id_checker;
pub mod clock;
pub mod crash_report;
pub mod health;
pub mod ini_conversion;
pub mod ini_file;
pub mod name_map;
pub mod path_validation;
pub mod notifications;
pub mod paths;
pub mod profile;
pub mod rcon;
pub mod regex_text;
pub mod retry;
pub mod server_control;
pub mod server_discovery;
pub mod server_state;
pub mod steam_errors;
pub mod steam_install;
pub mod steam_progress;
pub mod steamcmd_detector;
pub mod steamcmd_installer;
pub mod steamcmd_runner;
pub mod text;
pub mod tray;
pub mod update_manager;

use crate::paths::{app_subdir, app_subdir_of, data_local_dir, opt_view, path_join, spec_path_join};

verus! {

/// The application's logs directory under a local data directory:
/// `{app dir}/logs`.
pub open spec fn logs_dir_in(local: Option<Seq<char>>) -> Seq<char> {
    app_subdir(local, "logs"@)
}

/// Returns the logs directory path for a local data directory (see
/// [`logs_dir_in`]).
pub fn logs_dir(local: &Option<String>) -> (d: String)
    ensures
        d@ == logs_dir_in(opt_view(*local)),
{
    app_subdir_of(local, "logs")
}

/// The directory of the application's own logs: `{logs}/app`.
pub fn app_log_dir(local: &Option<String>) -> (d: String)
    ensures
        d@ == spec_path_join(logs_dir_in(opt_view(*local)), "app"@),
{
    let logs = logs_dir(local);
    path_join(logs.as_str(), "app")
}

/// The log directory of a profile's server: `{logs}/servers/{profile}`.
pub open spec fn server_log_dir_in(local: Option<Seq<char>>, profile_name: Seq<char>) -> Seq<char> {
    spec_path_join(spec_path_join(logs_dir_in(local), "servers"@), profile_name)
}

/// The log directory of a profile's server under a local data directory
/// (see [`server_log_dir_in`]).
pub fn server_log_dir_for(local: &Option<String>, profile_name: &str) -> (d: String)
    ensures
        d@ == server_log_dir_in(opt_view(*local), profile_name@),
{
    let logs = logs_dir(local);
    let servers = path_join(logs.as_str(), "servers");
    path_join(servers.as_str(), profile_name)
}

/// Returns the server log directory for a specific profile (see
/// [`server_log_dir_in`]), under the user's local data directory.
pub fn server_log_dir(profile_name: &str) -> (d: String)
    ensures
        exists|local: Option<Seq<char>>| d@ == server_log_dir_in(local, profile_name@),
{
    let local = data_local_dir();
    server_log_dir_for(&local, profile_name)
}

}
