//! Server installation discovery and path management.
//!
//! Finds the ARK server binaries at their default Windows paths and checks
//! user-specified custom paths.
use vstd::prelude::*;
use crate::paths::{
    path_exists, path_file_name, path_is_file, path_join, path_parent, spec_path_file_name,
    spec_path_join, spec_path_parent,
};
use crate::profile::Profile;
use crate::text::{chars_to_string, extend_with_str, str_eq};

verus! {

/// Default path of the ARK server executable.
pub open spec fn default_ark_exe() -> Seq<char> {
    "C:\\Program Files (x86)\\Steam\\steamapps\\common\\ARK\\ShooterGame\\Binaries\\Win64\\ShooterGameServer.exe"@
}

/// Default path of the SteamCMD executable shipped with ARK.
pub open spec fn default_steamcmd() -> Seq<char> {
    "C:\\Program Files (x86)\\Steam\\steamapps\\common\\ARK\\Engine\\Binaries\\ThirdParty\\SteamCMD\\steamcmd.exe"@
}

/// A discovered ARK server installation.
#[derive(Clone, Debug, PartialEq)]
pub struct ServerInstall {
    /// Path to the SteamCMD binary.
    pub steamcmd_path: String,
    /// Path to the ShooterGameServer.exe binary.
    pub ark_exe_path: String,
    /// Base installation directory.
    pub install_dir: String,
}

/// Errors that can occur during server installation discovery.
#[derive(Clone, Debug)]
pub enum DiscoveryError {
    /// The ARK server installation was not found; carries user-facing
    /// guidance and the executable that is missing.
    InstallNotFound { guidance: String, missing_executable: String },
}

impl DiscoveryError {
    /// The user-facing message: `ARK server not found. Missing: {missing}. {guidance}`.
    pub fn message(&self) -> (s: String)
        ensures
            s@ == "ARK server not found. Missing: "@ + self->missing_executable@ + ". "@
                + self->guidance@,
    {
        match self {
            DiscoveryError::InstallNotFound { guidance, missing_executable } => {
                let mut v: Vec<char> = Vec::new();
                extend_with_str(&mut v, "ARK server not found. Missing: ");
                extend_with_str(&mut v, missing_executable.as_str());
                extend_with_str(&mut v, ". ");
                extend_with_str(&mut v, guidance.as_str());
                chars_to_string(&v)
            },
        }
    }
}

/// Result of validating a server installation for a specific profile.
#[derive(Clone, Debug)]
pub struct ValidationResult {
    /// Whether the installation is valid.
    pub is_valid: bool,
    /// Human-readable message describing the validation result.
    pub message: String,
    /// Resolved path to the ARK executable (empty when invalid).
    pub ark_exe_path: String,
}

/// Returns the default paths for the ARK server executable and SteamCMD.
pub fn default_paths() -> (r: (String, String))
    ensures
        r.0@ == default_ark_exe(),
        r.1@ == default_steamcmd(),
{
    (
        String::from_str(
            "C:\\Program Files (x86)\\Steam\\steamapps\\common\\ARK\\ShooterGame\\Binaries\\Win64\\ShooterGameServer.exe",
        ),
        String::from_str(
            "C:\\Program Files (x86)\\Steam\\steamapps\\common\\ARK\\Engine\\Binaries\\ThirdParty\\SteamCMD\\steamcmd.exe",
        ),
    )
}

/// Whether a path exists and is a file. The answer depends on the disk.
pub fn path_is_valid(p: &str) -> bool {
    path_exists(p) && path_is_file(p)
}

/// The `n`-th ancestor of a path (`Path::ancestors`): the path itself, its
/// parent, its parent's parent, and so on.
pub open spec fn ancestor(p: Seq<char>, n: nat) -> Option<Seq<char>>
    decreases n,
{
    if n == 0 {
        Some(p)
    } else {
        match ancestor(p, (n - 1) as nat) {
            Some(q) => spec_path_parent(q),
            None => None,
        }
    }
}

/// Whether the `n`-th ancestor of a path exists and is named `ARK`.
pub open spec fn is_ark_dir_at(p: Seq<char>, n: nat) -> bool {
    ancestor(p, n) matches Some(q) && spec_path_file_name(q) == Some("ARK"@)
}

/// The install root for an executable path: its nearest ancestor named `ARK`;
/// when there is none, its fourth ancestor (three levels up), or the empty
/// path when that does not exist.
pub open spec fn install_root(p: Seq<char>) -> Seq<char> {
    if exists|n: nat| is_ark_dir_at(p, n) {
        let n = choose|n: nat| is_ark_dir_at(p, n) && forall|m: nat| m < n ==> !is_ark_dir_at(p, m);
        ancestor(p, n)->0
    } else {
        match ancestor(p, 3) {
            Some(q) => q,
            None => Seq::<char>::empty(),
        }
    }
}

proof fn lemma_ancestor_none_after(p: Seq<char>, n: nat, m: nat)
    requires
        ancestor(p, n) is None,
        n <= m,
    ensures
        ancestor(p, m) is None,
    decreases m - n,
{
    if n < m {
        lemma_ancestor_none_after(p, n, (m - 1) as nat);
    }
}

/// Computes [`install_root`] by walking up the ancestors of a path.
pub fn find_install_root(p: &str) -> (r: String)
    ensures
        r@ == install_root(p@),
{
    let mut cur = String::from_str(p);
    let ghost mut n: nat = 0;
    loop
        invariant
            ancestor(p@, n) == Some(cur@),
            forall|m: nat| m < n ==> !is_ark_dir_at(p@, m),
        ensures
            forall|m: nat| !is_ark_dir_at(p@, m),
        decreases cur@.len(),
    {
        match path_file_name(cur.as_str()) {
            Some(name) => {
                if str_eq(name.as_str(), "ARK") {
                    proof {
                        assert(is_ark_dir_at(p@, n));
                        let k = choose|k: nat| is_ark_dir_at(p@, k) && forall|m: nat| m < k ==> !is_ark_dir_at(p@, m);
                        assert(is_ark_dir_at(p@, k) && forall|m: nat| m < k ==> !is_ark_dir_at(p@, m));
                        if k < n {
                            assert(!is_ark_dir_at(p@, k));
                        }
                        if n < k {
                            assert(!is_ark_dir_at(p@, n));
                        }
                        assert(k == n);
                    }
                    return cur;
                }
            },
            None => {},
        }
        assert(!is_ark_dir_at(p@, n));
        match path_parent(cur.as_str()) {
            Some(q) => {
                proof {
                    assert(ancestor(p@, n + 1) == spec_path_parent(cur@));
                    n = n + 1;
                }
                cur = q;
            },
            None => {
                proof {
                    assert(ancestor(p@, n + 1) is None);
                    assert forall|m: nat| !is_ark_dir_at(p@, m) by {
                        if m > n {
                            lemma_ancestor_none_after(p@, n + 1, m);
                        }
                    }
                }
                break ;
            },
        }
    }
    // No ancestor is named ARK: three levels up, or the empty path.
    let p0 = String::from_str(p);
    assert(ancestor(p@, 0) == Some(p@));
    match path_parent(p0.as_str()) {
        Some(p1) => {
            assert(ancestor(p@, 1) == Some(p1@));
            match path_parent(p1.as_str()) {
                Some(p2) => {
                    assert(ancestor(p@, 2) == Some(p2@));
                    match path_parent(p2.as_str()) {
                        Some(p3) => {
                            assert(ancestor(p@, 3) == Some(p3@));
                            p3
                        },
                        None => {
                            assert(ancestor(p@, 3) is None);
                            String::new()
                        },
                    }
                },
                None => {
                    assert(ancestor(p@, 2) is None);
                    assert(ancestor(p@, 3) is None);
                    String::new()
                },
            }
        },
        None => {
            assert(ancestor(p@, 1) is None);
            assert(ancestor(p@, 2) is None);
            assert(ancestor(p@, 3) is None);
            String::new()
        },
    }
}

/// Guidance when neither executable is found.
pub open spec fn guidance_both_missing() -> Seq<char> {
    "ARK server files not found. Please ensure SteamCMD has downloaded the ARK server files, or use a custom server_install_path in your profile."@
}

/// Guidance when the server executable is not found.
pub open spec fn guidance_ark_missing() -> Seq<char> {
    "ShooterGameServer.exe not found. Please verify ARK server files are installed, or specify a custom server_install_path in your profile."@
}

/// Guidance when SteamCMD is not found.
pub open spec fn guidance_steamcmd_missing() -> Seq<char> {
    "steamcmd.exe not found. Please verify SteamCMD is installed in the ARK directory, or specify a custom server_install_path in your profile."@
}

/// A discovery result as plain text: the installation found, or what is missing.
pub enum DiscoveryOutcome {
    Found { steamcmd_path: Seq<char>, ark_exe_path: Seq<char>, install_dir: Seq<char> },
    Missing { guidance: Seq<char>, missing_executable: Seq<char> },
}

/// The content of a discovery result.
pub open spec fn outcome_of(r: Result<ServerInstall, DiscoveryError>) -> DiscoveryOutcome {
    match r {
        Ok(i) => DiscoveryOutcome::Found {
            steamcmd_path: i.steamcmd_path@,
            ark_exe_path: i.ark_exe_path@,
            install_dir: i.install_dir@,
        },
        Err(DiscoveryError::InstallNotFound { guidance, missing_executable }) => DiscoveryOutcome::Missing {
            guidance: guidance@,
            missing_executable: missing_executable@,
        },
    }
}

/// The discovery outcome given whether each executable was found: what is
/// missing (both, the server executable, or SteamCMD), or the installation
/// with its install root (see [`install_root`]).
pub open spec fn discovery_spec(
    ark_exe_path: Seq<char>,
    steamcmd_path: Seq<char>,
    ark_exists: bool,
    steamcmd_exists: bool,
) -> DiscoveryOutcome {
    if !ark_exists && !steamcmd_exists {
        DiscoveryOutcome::Missing {
            guidance: guidance_both_missing(),
            missing_executable: "ShooterGameServer.exe AND steamcmd.exe"@,
        }
    } else if !ark_exists {
        DiscoveryOutcome::Missing {
            guidance: guidance_ark_missing(),
            missing_executable: "ShooterGameServer.exe"@,
        }
    } else if !steamcmd_exists {
        DiscoveryOutcome::Missing {
            guidance: guidance_steamcmd_missing(),
            missing_executable: "steamcmd.exe"@,
        }
    } else {
        DiscoveryOutcome::Found {
            steamcmd_path,
            ark_exe_path,
            install_dir: install_root(ark_exe_path),
        }
    }
}

/// The outcome of discovery given whether each executable was found (see
/// [`discovery_spec`]).
pub fn discovery_outcome(
    ark_exe_path: String,
    steamcmd_path: String,
    ark_exists: bool,
    steamcmd_exists: bool,
) -> (r: Result<ServerInstall, DiscoveryError>)
    ensures
        outcome_of(r) == discovery_spec(ark_exe_path@, steamcmd_path@, ark_exists, steamcmd_exists),
{
    if !ark_exists && !steamcmd_exists {
        return Err(
            DiscoveryError::InstallNotFound {
                guidance: String::from_str(
                    "ARK server files not found. Please ensure SteamCMD has downloaded the ARK server files, or use a custom server_install_path in your profile.",
                ),
                missing_executable: String::from_str("ShooterGameServer.exe AND steamcmd.exe"),
            },
        );
    }
    if !ark_exists {
        return Err(
            DiscoveryError::InstallNotFound {
                guidance: String::from_str(
                    "ShooterGameServer.exe not found. Please verify ARK server files are installed, or specify a custom server_install_path in your profile.",
                ),
                missing_executable: String::from_str("ShooterGameServer.exe"),
            },
        );
    }
    if !steamcmd_exists {
        return Err(
            DiscoveryError::InstallNotFound {
                guidance: String::from_str(
                    "steamcmd.exe not found. Please verify SteamCMD is installed in the ARK directory, or specify a custom server_install_path in your profile.",
                ),
                missing_executable: String::from_str("steamcmd.exe"),
            },
        );
    }
    let install_dir = find_install_root(ark_exe_path.as_str());
    Ok(ServerInstall { steamcmd_path, ark_exe_path, install_dir })
}

/// Discovers the ARK server installation at the default paths: the
/// installation when both executables are found on disk, else an error naming
/// what is missing (see [`discovery_spec`]).
pub fn discover_server_install() -> (r: Result<ServerInstall, DiscoveryError>)
    ensures
        exists|ark_exists: bool, steamcmd_exists: bool|
            outcome_of(r) == #[trigger] discovery_spec(
                default_ark_exe(),
                default_steamcmd(),
                ark_exists,
                steamcmd_exists,
            ),
{
    let (ark_exe_path, steamcmd_path) = default_paths();
    let ark_exists = path_is_valid(ark_exe_path.as_str());
    let steamcmd_exists = path_is_valid(steamcmd_path.as_str());
    discovery_outcome(ark_exe_path, steamcmd_path, ark_exists, steamcmd_exists)
}


/// The executable a custom install path stands for: the path itself when it
/// names `ShooterGameServer.exe`, else the executable's place under it.
pub open spec fn exe_candidate(custom: Seq<char>) -> Seq<char> {
    if spec_path_file_name(custom) == Some("ShooterGameServer.exe"@) {
        custom
    } else {
        spec_path_join(custom, "ShooterGame\\Binaries\\Win64\\ShooterGameServer.exe"@)
    }
}

/// The outcome of resolving a custom install path that exists on disk, given
/// whether its executable candidate is a file (`exe_valid`).
pub open spec fn custom_resolution(
    profile_name: Seq<char>,
    custom: Seq<char>,
    exe_valid: bool,
) -> Result<Seq<char>, (Seq<char>, Seq<char>)> {
    if exe_valid {
        Ok(exe_candidate(custom))
    } else {
        Err(
            (
                "ShooterGameServer.exe not found at expected location within custom path. Please verify server_install_path in profile '"@
                    + profile_name
                    + "' points to the ARK installation directory or ShooterGameServer.exe directly."@,
                "ShooterGameServer.exe"@,
            ),
        )
    }
}

/// The content of a path resolution result.
pub open spec fn resolution_of(r: Result<String, DiscoveryError>) -> Result<Seq<char>, (Seq<char>, Seq<char>)> {
    match r {
        Ok(p) => Ok(p@),
        Err(DiscoveryError::InstallNotFound { guidance, missing_executable }) => Err((guidance@, missing_executable@)),
    }
}

/// The executable candidate for a custom install path (see [`exe_candidate`]).
pub fn custom_exe_candidate(custom: &str) -> (r: String)
    ensures
        r@ == exe_candidate(custom@),
{
    match path_file_name(custom) {
        Some(name) => {
            if str_eq(name.as_str(), "ShooterGameServer.exe") {
                return String::from_str(custom);
            }
        },
        None => {},
    }
    path_join(custom, "ShooterGame\\Binaries\\Win64\\ShooterGameServer.exe")
}

/// Resolves a custom install path that exists on disk, from whether its
/// executable candidate is a file (see [`custom_resolution`]).
pub fn resolve_custom_path(profile_name: &str, custom: &str, exe_valid: bool) -> (r: Result<String, DiscoveryError>)
    ensures
        resolution_of(r) == custom_resolution(profile_name@, custom@, exe_valid),
{
    if exe_valid {
        return Ok(custom_exe_candidate(custom));
    }
    let mut v: Vec<char> = Vec::new();
    extend_with_str(
        &mut v,
        "ShooterGameServer.exe not found at expected location within custom path. Please verify server_install_path in profile '",
    );
    extend_with_str(&mut v, profile_name);
    extend_with_str(
        &mut v,
        "' points to the ARK installation directory or ShooterGameServer.exe directly.",
    );
    Err(
        DiscoveryError::InstallNotFound {
            guidance: chars_to_string(&v),
            missing_executable: String::from_str("ShooterGameServer.exe"),
        },
    )
}

/// What the default discovery may give as the executable: the default
/// executable, or the discovery's error.
pub open spec fn default_resolution_possible(r: Result<Seq<char>, (Seq<char>, Seq<char>)>) -> bool {
    exists|ark_exists: bool, steamcmd_exists: bool|
        #[trigger] discovery_spec(default_ark_exe(), default_steamcmd(), ark_exists, steamcmd_exists)
            == match r {
            Ok(path) => DiscoveryOutcome::Found {
                steamcmd_path: default_steamcmd(),
                ark_exe_path: path,
                install_dir: install_root(default_ark_exe()),
            },
            Err((guidance, missing_executable)) => DiscoveryOutcome::Missing { guidance, missing_executable },
        }
}

/// The executable a profile resolves to, from what was found on disk: with a
/// custom install path where something exists, the custom resolution (see
/// [`custom_resolution`]); without a custom path, or with one where nothing
/// exists, what the default discovery gave.
pub open spec fn resolved_exe(
    p: Profile,
    custom_exists: bool,
    exe_valid: bool,
    discovered: Result<Seq<char>, (Seq<char>, Seq<char>)>,
) -> Result<Seq<char>, (Seq<char>, Seq<char>)> {
    match p.server_install_path {
        Some(custom) => if custom_exists {
            custom_resolution(p.name@, custom@, exe_valid)
        } else {
            discovered
        },
        None => discovered,
    }
}

/// What resolving the executable of a profile may give, whatever the disk
/// holds (see [`resolved_exe`] and [`default_resolution_possible`]).
pub open spec fn resolution_possible(p: Profile, r: Result<Seq<char>, (Seq<char>, Seq<char>)>) -> bool {
    exists|custom_exists: bool, exe_valid: bool, discovered: Result<Seq<char>, (Seq<char>, Seq<char>)>|
        default_resolution_possible(discovered) && r == #[trigger] resolved_exe(
            p,
            custom_exists,
            exe_valid,
            discovered,
        )
}

/// The executable of the default discovery (see [`discover_server_install`]).
fn discovered_exe() -> (r: Result<String, DiscoveryError>)
    ensures
        default_resolution_possible(resolution_of(r)),
{
    let d = discover_server_install();
    match d {
        Ok(install) => Ok(install.ark_exe_path),
        Err(e) => Err(e),
    }
}

/// Resolves the ARK executable of a profile from what was found on disk:
/// whether something exists at its custom install path (`custom_exists`),
/// whether the executable candidate there is a file (`exe_valid`), and what
/// the default discovery gave (`discovered`). See [`resolved_exe`].
pub fn resolve_from(
    profile: &Profile,
    custom_exists: bool,
    exe_valid: bool,
    discovered: Result<String, DiscoveryError>,
) -> (r: Result<String, DiscoveryError>)
    ensures
        resolution_of(r) == resolved_exe(*profile, custom_exists, exe_valid, resolution_of(discovered)),
        (profile.server_install_path is None || !custom_exists) ==> r == discovered,
{
    match &profile.server_install_path {
        Some(custom) => {
            if custom_exists {
                resolve_custom_path(profile.name.as_str(), custom.as_str(), exe_valid)
            } else {
                discovered
            }
        },
        None => discovered,
    }
}

/// Resolves the ARK executable path for a profile: its custom install path
/// when set and something exists there (the executable itself, or the
/// install root that holds it), else the default discovery. The disk is
/// probed and the outcome resolved by [`resolve_from`]; what the disk holds
/// is not known here, so the result is one that some disk gives.
pub fn resolve_ark_exe(profile: &Profile) -> (r: Result<String, DiscoveryError>)
    ensures
        resolution_possible(*profile, resolution_of(r)),
{
    let (custom_exists, exe_valid) = match &profile.server_install_path {
        Some(custom) => {
            if path_exists(custom.as_str()) {
                let exe = custom_exe_candidate(custom.as_str());
                (true, path_is_valid(exe.as_str()))
            } else {
                (false, false)
            }
        },
        None => (false, false),
    };
    let discovered = discovered_exe();
    let ghost d = resolution_of(discovered);
    let r = resolve_from(profile, custom_exists, exe_valid, discovered);
    assert(default_resolution_possible(d) && resolution_of(r) == resolved_exe(*profile, custom_exists, exe_valid, d));
    r
}

/// How loading a profile for validation went.
#[derive(Clone, Debug)]
pub enum ProfileLoad {
    /// No profile file of that name.
    NotFound,
    /// The file could not be read; the error's text.
    ReadFailed(String),
    /// The file is not a valid profile; the error's text.
    ParseFailed(String),
    /// The profile.
    Loaded(Profile),
}

/// What validating an installation gives for a resolved executable: valid
/// with the executable's path, or invalid with the resolution error's
/// message.
pub open spec fn validation_of(
    profile_name: Seq<char>,
    resolved: Result<Seq<char>, (Seq<char>, Seq<char>)>,
    r: ValidationResult,
) -> bool {
    match resolved {
        Ok(path) => r.is_valid && r.ark_exe_path@ == path && r.message@ == "Installation valid for profile '"@
            + profile_name + "'"@,
        Err((guidance, missing)) => !r.is_valid && r.ark_exe_path@.len() == 0 && r.message@
            == "ARK server not found. Missing: "@ + missing + ". "@ + guidance,
    }
}

/// Validates the installation of a loaded profile from its resolved
/// executable (see [`validation_of`]).
pub fn install_validation(profile_name: &str, resolved: Result<String, DiscoveryError>) -> (r: ValidationResult)
    ensures
        validation_of(profile_name@, resolution_of(resolved), r),
{
    match resolved {
        Ok(ark_exe_path) => {
            let mut v: Vec<char> = Vec::new();
            extend_with_str(&mut v, "Installation valid for profile '");
            extend_with_str(&mut v, profile_name);
            extend_with_str(&mut v, "'");
            ValidationResult { is_valid: true, message: chars_to_string(&v), ark_exe_path }
        },
        Err(e) => {
            let m = e.message();
            ValidationResult { is_valid: false, message: m, ark_exe_path: String::new() }
        },
    }
}

/// Validates the server installation of a profile, given how loading the
/// profile went: a profile that could not be loaded is invalid with the reason;
/// a loaded profile's executable is resolved (see [`resolve_ark_exe`]) and
/// the installation validated from it (see [`install_validation`]).
pub fn validate_install_for_profile(profile_name: &str, load: ProfileLoad) -> (r: ValidationResult)
    ensures
        load is NotFound ==> !r.is_valid && r.message@ == "Profile '"@ + profile_name@
            + "' not found"@ && r.ark_exe_path@.len() == 0,
        load matches ProfileLoad::ReadFailed(e) ==> !r.is_valid && r.message@
            == "Failed to read profile '"@ + profile_name@ + "': "@ + e@ && r.ark_exe_path@.len() == 0,
        load matches ProfileLoad::ParseFailed(e) ==> !r.is_valid && r.message@
            == "Failed to parse profile '"@ + profile_name@ + "': "@ + e@ && r.ark_exe_path@.len() == 0,
        load matches ProfileLoad::Loaded(p) ==> exists|res: Result<Seq<char>, (Seq<char>, Seq<char>)>|
            resolution_possible(p, res) && #[trigger] validation_of(profile_name@, res, r),
{
    match load {
        ProfileLoad::NotFound => {
            let mut v: Vec<char> = Vec::new();
            extend_with_str(&mut v, "Profile '");
            extend_with_str(&mut v, profile_name);
            extend_with_str(&mut v, "' not found");
            ValidationResult { is_valid: false, message: chars_to_string(&v), ark_exe_path: String::new() }
        },
        ProfileLoad::ReadFailed(e) => {
            let mut v: Vec<char> = Vec::new();
            extend_with_str(&mut v, "Failed to read profile '");
            extend_with_str(&mut v, profile_name);
            extend_with_str(&mut v, "': ");
            extend_with_str(&mut v, e.as_str());
            ValidationResult { is_valid: false, message: chars_to_string(&v), ark_exe_path: String::new() }
        },
        ProfileLoad::ParseFailed(e) => {
            let mut v: Vec<char> = Vec::new();
            extend_with_str(&mut v, "Failed to parse profile '");
            extend_with_str(&mut v, profile_name);
            extend_with_str(&mut v, "': ");
            extend_with_str(&mut v, e.as_str());
            ValidationResult { is_valid: false, message: chars_to_string(&v), ark_exe_path: String::new() }
        },
        ProfileLoad::Loaded(profile) => {
            let res = resolve_ark_exe(&profile);
            let ghost rv = resolution_of(res);
            let r = install_validation(profile_name, res);
            assert(resolution_possible(profile, rv) && validation_of(profile_name@, rv, r));
            r
        },
    }
}

} // verus!
