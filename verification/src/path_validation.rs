//! Validation of user-entered paths for a server folder or SteamCMD.
use vstd::prelude::*;
use crate::paths::{
    path_exists, path_extension, path_file_name, path_is_dir, path_join, spec_lowercase,
    spec_path_extension, spec_path_file_name, spec_path_join, to_lowercase,
};
use crate::text::{
    chars_to_string, contains, contains_chars, extend_with_str, str_chars, str_eq, trim,
    trim_chars,
};

verus! {

/// Result of path validation.
#[derive(Clone, Debug)]
pub struct PathValidationResult {
    /// Whether the path is valid for the requested use.
    pub valid: bool,
    /// Whether the path exists on disk.
    pub exists: bool,
    /// Whether the path is a directory (true) or file (false).
    pub is_directory: bool,
    /// Human-readable hint or error message.
    pub hint: String,
}

/// What was observed of a (non-empty) path on disk.
#[derive(Clone, Debug)]
pub struct PathFacts {
    /// Something exists at the path.
    pub exists: bool,
    /// A directory exists at the path.
    pub is_dir: bool,
    /// Something exists at the path's [`nested_exe_probe`]
    /// (`ShooterGame/Binaries/Win64/ShooterGameServer.exe` under it).
    pub nested_exe_exists: bool,
    /// Something exists at the path's [`direct_exe_probe`]
    /// (`ShooterGameServer.exe` directly under it).
    pub direct_exe_exists: bool,
    /// The path's extension, lowercased, if it has one.
    pub extension: Option<String>,
    /// The path's file name, lowercased (empty when it has none).
    pub file_name: String,
}

/// Whether a path type is the server folder type.
pub open spec fn is_server_folder_type(t: Seq<char>) -> bool {
    t == "server_folder"@
}

/// Whether a path type is the SteamCMD type.
pub open spec fn is_steamcmd_type(t: Seq<char>) -> bool {
    t == "steamcmd"@
}

/// The result for an observed path: a missing path is invalid; a server folder
/// must be a directory holding `ShooterGameServer.exe` (under
/// `ShooterGame/Binaries/Win64` or directly); SteamCMD must be a file with
/// extension `exe` whose name contains `steamcmd`; any other path type is
/// invalid.
pub open spec fn classify(path_type: Seq<char>, f: PathFacts) -> (bool, bool, bool, Seq<char>) {
    if !f.exists {
        (false, false, false, "Path does not exist"@)
    } else if is_server_folder_type(path_type) {
        if !f.is_dir {
            (false, true, false, "Server folder must be a directory"@)
        } else if f.nested_exe_exists {
            (true, true, true, "Valid ARK server installation"@)
        } else if f.direct_exe_exists {
            (true, true, true, "Valid ARK server installation (direct executable)"@)
        } else {
            (
                false,
                true,
                true,
                "Directory does not contain ShooterGameServer.exe. Is this the ARK server root?"@,
            )
        }
    } else if is_steamcmd_type(path_type) {
        if f.is_dir {
            (
                false,
                true,
                true,
                "SteamCMD path must be a file (steamcmd.exe), not a directory"@,
            )
        } else {
            match f.extension {
                Some(ext) => if ext@ == "exe"@ {
                    if contains(f.file_name@, "steamcmd"@) {
                        (true, true, false, "Valid SteamCMD executable"@)
                    } else {
                        (
                            false,
                            true,
                            false,
                            "File exists but does not appear to be SteamCMD (expected filename contains 'steamcmd')"@,
                        )
                    }
                } else {
                    (false, true, false, "SteamCMD must be an .exe file, got ."@ + ext@)
                },
                None => (false, true, false, "SteamCMD must have a file extension (.exe)"@),
            }
        }
    } else {
        (
            false,
            true,
            f.is_dir,
            "Unknown path type '"@ + path_type + "'. Use 'server_folder' or 'steamcmd'"@,
        )
    }
}

/// Whether a result carries the given fields.
pub open spec fn result_is(r: PathValidationResult, c: (bool, bool, bool, Seq<char>)) -> bool {
    r.valid == c.0 && r.exists == c.1 && r.is_directory == c.2 && r.hint@ == c.3
}

/// A server folder that exists and is a directory holding the executable
/// under `ShooterGame/Binaries/Win64` is a valid installation, whatever is
/// found directly in it.
pub proof fn law_nested_executable_is_valid(f: PathFacts)
    requires
        f.exists,
        f.is_dir,
        f.nested_exe_exists,
    ensures
        classify("server_folder"@, f) == (true, true, true, "Valid ARK server installation"@),
{
}

/// An existing path is a valid server folder exactly when it is a directory
/// and the executable is found under `ShooterGame/Binaries/Win64` or
/// directly in it; the result says whether the path is a directory.
pub proof fn law_server_folder_validity(f: PathFacts)
    requires
        f.exists,
    ensures
        classify("server_folder"@, f).0 == (f.is_dir && (f.nested_exe_exists || f.direct_exe_exists)),
        classify("server_folder"@, f).1,
        classify("server_folder"@, f).2 == f.is_dir,
{
}

fn result(valid: bool, exists: bool, is_directory: bool, hint: &str) -> (r: PathValidationResult)
    ensures
        r.valid == valid && r.exists == exists && r.is_directory == is_directory && r.hint@ == hint@,
{
    PathValidationResult { valid, exists, is_directory, hint: String::from_str(hint) }
}

/// Validates an existing path as an ARK server installation folder: it must
/// be a directory holding `ShooterGameServer.exe` under
/// `ShooterGame/Binaries/Win64` or directly (see [`classify`]).
pub fn validate_server_folder(f: &PathFacts) -> (r: PathValidationResult)
    requires
        f.exists,
    ensures
        result_is(r, classify("server_folder"@, *f)),
{
    if !f.is_dir {
        result(false, true, false, "Server folder must be a directory")
    } else if f.nested_exe_exists {
        result(true, true, true, "Valid ARK server installation")
    } else if f.direct_exe_exists {
        result(true, true, true, "Valid ARK server installation (direct executable)")
    } else {
        result(
            false,
            true,
            true,
            "Directory does not contain ShooterGameServer.exe. Is this the ARK server root?",
        )
    }
}

/// Validates an existing path as a SteamCMD executable: a file with
/// extension `exe` whose name contains `steamcmd` (see [`classify`]).
pub fn validate_steamcmd(f: &PathFacts) -> (r: PathValidationResult)
    requires
        f.exists,
    ensures
        result_is(r, classify("steamcmd"@, *f)),
{
    proof {
        reveal_strlit("steamcmd");
        reveal_strlit("server_folder");
        assert("steamcmd"@.len() != "server_folder"@.len());
    }
    if f.is_dir {
        result(false, true, true, "SteamCMD path must be a file (steamcmd.exe), not a directory")
    } else {
        match &f.extension {
            Some(ext) => {
                if str_eq(ext.as_str(), "exe") {
                    let name = str_chars(f.file_name.as_str());
                    let marker = str_chars("steamcmd");
                    if contains_chars(&name, &marker) {
                        result(true, true, false, "Valid SteamCMD executable")
                    } else {
                        result(
                            false,
                            true,
                            false,
                            "File exists but does not appear to be SteamCMD (expected filename contains 'steamcmd')",
                        )
                    }
                } else {
                    let mut v: Vec<char> = Vec::new();
                    extend_with_str(&mut v, "SteamCMD must be an .exe file, got .");
                    extend_with_str(&mut v, ext.as_str());
                    PathValidationResult {
                        valid: false,
                        exists: true,
                        is_directory: false,
                        hint: chars_to_string(&v),
                    }
                }
            },
            None => result(false, true, false, "SteamCMD must have a file extension (.exe)"),
        }
    }
}

/// Classifies an observed path (see [`classify`]).
pub fn validate_from_facts(path_type: &str, f: &PathFacts) -> (r: PathValidationResult)
    ensures
        result_is(r, classify(path_type@, *f)),
{
    if !f.exists {
        return result(false, false, false, "Path does not exist");
    }
    if str_eq(path_type, "server_folder") {
        validate_server_folder(f)
    } else if str_eq(path_type, "steamcmd") {
        validate_steamcmd(f)
    } else {
        let mut v: Vec<char> = Vec::new();
        extend_with_str(&mut v, "Unknown path type '");
        extend_with_str(&mut v, path_type);
        extend_with_str(&mut v, "'. Use 'server_folder' or 'steamcmd'");
        PathValidationResult {
            valid: false,
            exists: true,
            is_directory: f.is_dir,
            hint: chars_to_string(&v),
        }
    }
}

/// Whether facts were observed of the given path: the extension and file
/// name are those of the path, lowercased (an absent file name is empty).
pub open spec fn facts_describe(f: PathFacts, path: Seq<char>) -> bool {
    &&& match f.extension {
        Some(e) => spec_path_extension(path) matches Some(x) && e@ == spec_lowercase(x),
        None => spec_path_extension(path) is None,
    }
    &&& f.file_name@ == match spec_path_file_name(path) {
        Some(n) => spec_lowercase(n),
        None => Seq::<char>::empty(),
    }
}

/// Where the server executable is looked for inside a folder:
/// `ShooterGame`, `Binaries`, `Win64` and `ShooterGameServer.exe` joined to
/// it one after the other.
pub open spec fn nested_exe_probe(path: Seq<char>) -> Seq<char> {
    spec_path_join(
        spec_path_join(spec_path_join(spec_path_join(path, "ShooterGame"@), "Binaries"@), "Win64"@),
        "ShooterGameServer.exe"@,
    )
}

/// Where the server executable is looked for directly in a folder.
pub open spec fn direct_exe_probe(path: Seq<char>) -> Seq<char> {
    spec_path_join(path, "ShooterGameServer.exe"@)
}

/// The two places a path's server executable is looked for (see
/// [`nested_exe_probe`] and [`direct_exe_probe`]).
pub fn probe_paths(path: &str) -> (r: (String, String))
    ensures
        r.0@ == nested_exe_probe(path@),
        r.1@ == direct_exe_probe(path@),
{
    let a = path_join(path, "ShooterGame");
    let b = path_join(a.as_str(), "Binaries");
    let c = path_join(b.as_str(), "Win64");
    let nested = path_join(c.as_str(), "ShooterGameServer.exe");
    let direct = path_join(path, "ShooterGameServer.exe");
    (nested, direct)
}

/// The facts of a path from what was found on disk: whether something
/// exists at it, whether it is a directory, and whether something exists at
/// each of its probes; its extension and file name are read from the path
/// (see [`facts_describe`]).
pub fn facts_from_probes(
    path: &str,
    exists: bool,
    is_dir: bool,
    nested_exe_exists: bool,
    direct_exe_exists: bool,
) -> (f: PathFacts)
    ensures
        f.exists == exists,
        f.is_dir == is_dir,
        f.nested_exe_exists == nested_exe_exists,
        f.direct_exe_exists == direct_exe_exists,
        facts_describe(f, path@),
{
    let extension = match path_extension(path) {
        Some(e) => Some(to_lowercase(e.as_str())),
        None => None,
    };
    let file_name = match path_file_name(path) {
        Some(n) => to_lowercase(n.as_str()),
        None => String::new(),
    };
    PathFacts { exists, is_dir, nested_exe_exists, direct_exe_exists, extension, file_name }
}

/// Observes a path on disk: whether it exists and is a directory, and
/// whether something exists at its probes (see [`probe_paths`]); the facts
/// are made by [`facts_from_probes`]. What the disk holds is not known here.
pub fn observe_path(path: &str) -> (f: PathFacts)
    ensures
        facts_describe(f, path@),
{
    let exists = path_exists(path);
    let is_dir = path_is_dir(path);
    let (nested, direct) = probe_paths(path);
    let nested_exe_exists = path_exists(nested.as_str());
    let direct_exe_exists = path_exists(direct.as_str());
    facts_from_probes(path, exists, is_dir, nested_exe_exists, direct_exe_exists)
}

/// Validates a path for use as a server folder (`path_type` `server_folder`)
/// or SteamCMD executable (`steamcmd`). The path is trimmed first; an empty
/// path is valid (auto-discovery will be used); otherwise the path is
/// observed on disk and classified (see [`classify`]).
pub fn validate_path_impl(path: &str, path_type: &str) -> (r: PathValidationResult)
    ensures
        trim(path@).len() == 0 ==> result_is(
            r,
            (true, false, false, "Empty path - auto-discovery will be used"@),
        ),
        trim(path@).len() > 0 ==> exists|f: PathFacts|
            facts_describe(f, trim(path@)) && result_is(r, classify(path_type@, f)),
{
    let chars = str_chars(path);
    let trimmed_chars = trim_chars(&chars);
    if trimmed_chars.len() == 0 {
        return result(true, false, false, "Empty path - auto-discovery will be used");
    }
    let trimmed = chars_to_string(&trimmed_chars);
    let facts = observe_path(trimmed.as_str());
    validate_from_facts(path_type, &facts)
}


/// Validates a path for use as a server folder or SteamCMD executable (see
/// [`validate_path_impl`]).
pub fn validate_path(path: String, path_type: String) -> (r: PathValidationResult)
    ensures
        trim(path@).len() == 0 ==> result_is(
            r,
            (true, false, false, "Empty path - auto-discovery will be used"@),
        ),
        trim(path@).len() > 0 ==> exists|f: PathFacts|
            facts_describe(f, trim(path@)) && result_is(r, classify(path_type@, f)),
{
    validate_path_impl(path.as_str(), path_type.as_str())
}

} // verus!
