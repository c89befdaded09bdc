//! Server profiles.
use vstd::prelude::*;
use crate::clock::Timestamp;
use crate::paths::{app_subdir, app_subdir_of, opt_view, path_extension, path_join, spec_path_extension, spec_path_join};
use crate::text::{chars_to_string, extend_with_str, str_eq};

verus! {

/// Schema version for profile JSON files.
pub const PROFILE_SCHEMA_VERSION: u32 = 1;

/// Server profile representing a single ARK server installation.
///
/// Paths are held as strings. The difficulty multiplier is held as the decimal
/// text that Rust's `Display` gives for the `f64` value (`1.0` is `"1"`,
/// `2.5` is `"2.5"`), which is how it reaches the server's command line.
/// Extra settings are key/value pairs, each key at most once.
#[derive(Clone, Debug)]
pub struct Profile {
    /// Schema version for future migrations.
    pub schema_version: u32,
    /// Display name of the profile.
    pub name: String,
    /// ARK map to use (e.g. "TheIsland", "ScorchedEarth").
    pub map: String,
    /// Difficulty multiplier, as the `Display` text of its `f64` value.
    pub difficulty: String,
    /// Maximum number of players allowed.
    pub max_players: u32,
    /// Admin password, stored in GameUserSettings.ini.
    pub admin_password: Option<String>,
    /// Query port for the server (27000–27015).
    pub port: u32,
    /// Additional raw key/value pairs for `[ServerSettings]` in Game.ini.
    pub extra_settings: Vec<(String, String)>,
    /// Raw GameUserSettings.ini key/value pairs not covered by typed fields.
    pub extra_user_settings: Vec<(String, String)>,
    /// Optional path to a custom ARK server installation (the executable or
    /// the install root).
    pub server_install_path: Option<String>,
    /// Optional path to the SteamCMD binary for this profile.
    pub steamcmd_path: Option<String>,
    /// Last verified build ID for this profile's server installation.
    pub last_verified_build_id: Option<String>,
    /// Directory where SteamCMD and ARK server files are installed.
    pub steamcmd_install_dir: Option<String>,
    /// Directory where backups for this profile are stored.
    pub backup_dir: Option<String>,
    /// Maximum number of backups to retain; 0 disables retention.
    pub backup_retention_count: u32,
    /// Filename suffix used for backup ZIP files.
    pub backup_suffix: String,
    /// Whether to automatically restart the server on crash.
    pub auto_restart_on_crash: bool,
    /// Delay in seconds before attempting auto-restart after crash.
    pub auto_restart_delay_secs: u32,
    /// Maximum number of restart attempts within 5 minutes before giving up.
    pub max_restart_attempts: u32,
}

/// No key occurs twice.
pub open spec fn unique_keys(v: Seq<(String, String)>) -> bool {
    forall|i: int, j: int| 0 <= i < j < v.len() ==> (#[trigger] v[i]).0@ != (#[trigger] v[j]).0@
}

impl Profile {
    /// The extra settings, like the maps they stand for, hold each key at
    /// most once.
    pub open spec fn wf(&self) -> bool {
        &&& unique_keys(self.extra_settings@)
        &&& unique_keys(self.extra_user_settings@)
    }
}

/// Backup suffix used when a stored profile names none.
pub fn default_backup_suffix() -> (s: String)
    ensures
        s@ == "backup"@,
{
    String::from_str("backup")
}

/// Whether auto-restart is on when a stored profile does not say.
pub fn default_auto_restart_on_crash() -> (b: bool)
    ensures
        b,
{
    true
}

/// Auto-restart delay in seconds when a stored profile does not say.
pub fn default_auto_restart_delay_secs() -> (n: u32)
    ensures
        n == 10,
{
    10
}

/// Restart attempts allowed when a stored profile does not say.
pub fn default_max_restart_attempts() -> (n: u32)
    ensures
        n == 3,
{
    3
}

/// Whether a profile holds the default values: no name, The Island at
/// difficulty 1 for 70 players on port 27015, no password, paths or extra
/// settings, backups without retention under the `backup` suffix, and
/// auto-restart on after 10 seconds with at most 3 attempts.
pub open spec fn is_default_profile(p: Profile) -> bool {
    &&& p.schema_version == PROFILE_SCHEMA_VERSION
    &&& p.name@ == Seq::<char>::empty()
    &&& p.map@ == "TheIsland"@
    &&& p.difficulty@ == "1"@
    &&& p.max_players == 70
    &&& p.admin_password is None
    &&& p.port == 27015
    &&& p.extra_settings@.len() == 0
    &&& p.extra_user_settings@.len() == 0
    &&& p.server_install_path is None
    &&& p.steamcmd_path is None
    &&& p.last_verified_build_id is None
    &&& p.steamcmd_install_dir is None
    &&& p.backup_dir is None
    &&& p.backup_retention_count == 0
    &&& p.backup_suffix@ == "backup"@
    &&& p.auto_restart_on_crash
    &&& p.auto_restart_delay_secs == 10
    &&& p.max_restart_attempts == 3
}

impl Default for Profile {
    fn default() -> (p: Self)
        ensures
            is_default_profile(p),
            p.wf(),
    {
        Profile {
            schema_version: PROFILE_SCHEMA_VERSION,
            name: String::new(),
            map: String::from_str("TheIsland"),
            difficulty: String::from_str("1"),
            max_players: 70,
            admin_password: None,
            port: 27015,
            extra_settings: Vec::new(),
            extra_user_settings: Vec::new(),
            server_install_path: None,
            steamcmd_path: None,
            last_verified_build_id: None,
            steamcmd_install_dir: None,
            backup_dir: None,
            backup_retention_count: 0,
            backup_suffix: default_backup_suffix(),
            auto_restart_on_crash: default_auto_restart_on_crash(),
            auto_restart_delay_secs: default_auto_restart_delay_secs(),
            max_restart_attempts: default_max_restart_attempts(),
        }
    }
}

/// Metadata of a stored profile, as listed.
#[derive(Clone, Debug)]
pub struct ProfileMetadata {
    /// Display name of the profile.
    pub name: String,
    /// ARK map of the profile.
    pub map: String,
    /// When the profile file was last modified.
    pub last_modified: Timestamp,
}

/// The metadata listed for a profile read from a file: its name and map,
/// and the file's modification time (the time of listing when unknown).
pub fn profile_metadata(profile: &Profile, modified: Option<Timestamp>, now: Timestamp) -> (m: ProfileMetadata)
    ensures
        m.name@ == profile.name@,
        m.map@ == profile.map@,
        m.last_modified == match modified {
            Some(t) => t,
            None => now,
        },
{
    ProfileMetadata {
        name: profile.name.clone(),
        map: profile.map.clone(),
        last_modified: match modified {
            Some(t) => t,
            None => now,
        },
    }
}

/// The profiles directory under a base data directory:
/// `{app dir}/profiles`.
pub open spec fn profiles_dir_in(base: Option<Seq<char>>) -> Seq<char> {
    app_subdir(base, "profiles"@)
}

/// Returns the profiles directory path for a base data directory (see
/// [`profiles_dir_in`]).
pub fn profiles_dir(base: &Option<String>) -> (d: String)
    ensures
        d@ == profiles_dir_in(opt_view(*base)),
{
    app_subdir_of(base, "profiles")
}

/// The file of a profile: `{name}.json` in the profiles directory.
pub open spec fn profile_file(dir: Seq<char>, name: Seq<char>) -> Seq<char> {
    spec_path_join(dir, name + ".json"@)
}

/// The file a profile is stored in (see [`profile_file`]).
pub fn profile_path(dir: &str, name: &str) -> (p: String)
    ensures
        p@ == profile_file(dir@, name@),
{
    let mut v: Vec<char> = Vec::new();
    extend_with_str(&mut v, name);
    extend_with_str(&mut v, ".json");
    let file = chars_to_string(&v);
    path_join(dir, file.as_str())
}

/// Whether a directory entry is a stored profile: its extension is `json`.
pub fn is_profile_file(path: &str) -> (r: bool)
    ensures
        r == (spec_path_extension(path@) == Some("json"@)),
{
    match path_extension(path) {
        Some(ext) => str_eq(ext.as_str(), "json"),
        None => false,
    }
}

/// The message for a profile that has no file.
pub fn profile_not_found_message(name: &str) -> (s: String)
    ensures
        s@ == "Profile '"@ + name@ + "' not found"@,
{
    let mut v: Vec<char> = Vec::new();
    extend_with_str(&mut v, "Profile '");
    extend_with_str(&mut v, name);
    extend_with_str(&mut v, "' not found");
    chars_to_string(&v)
}

/// The message for a profile file that is not a valid profile.
pub fn invalid_profile_message(error: &str) -> (s: String)
    ensures
        s@ == "Invalid profile JSON: "@ + error@,
{
    let mut v: Vec<char> = Vec::new();
    extend_with_str(&mut v, "Invalid profile JSON: ");
    extend_with_str(&mut v, error);
    chars_to_string(&v)
}

/// The message for a profile that could not be serialized.
pub fn serialization_failed_message(error: &str) -> (s: String)
    ensures
        s@ == "Serialization failed: "@ + error@,
{
    let mut v: Vec<char> = Vec::new();
    extend_with_str(&mut v, "Serialization failed: ");
    extend_with_str(&mut v, error);
    chars_to_string(&v)
}

} // verus!
