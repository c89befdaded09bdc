use ark_server_manager::path_validation::{
    facts_from_probes, observe_path, probe_paths, validate_from_facts, validate_path_impl, validate_server_folder, validate_steamcmd,
    PathFacts,
};

#[test]
fn test_empty_path_is_valid() {
    let result = validate_path_impl("", "server_folder");
    assert!(result.valid);
    assert!(!result.exists);
}

#[test]
fn test_empty_path_for_steamcmd_is_valid() {
    let result = validate_path_impl("", "steamcmd");
    assert!(result.valid);
    assert!(!result.exists);
}

#[test]
fn test_whitespace_only_path_is_valid() {
    let result = validate_path_impl("   ", "server_folder");
    assert!(result.valid);
    assert!(!result.exists);
}

#[test]
fn test_unknown_path_type() {
    let result = validate_path_impl("/", "unknown");
    assert!(!result.valid);
    assert!(result.exists);
}

#[test]
fn test_non_existent_path_invalid() {
    let result = validate_path_impl("C:\\nonexistent\\path\\foo", "server_folder");
    assert!(!result.valid);
    assert!(!result.exists);
}

fn facts(exists: bool, is_dir: bool, ext: Option<&str>, name: &str) -> PathFacts {
    PathFacts {
        exists,
        is_dir,
        nested_exe_exists: false,
        direct_exe_exists: false,
        extension: ext.map(|e| e.to_string()),
        file_name: name.to_string(),
    }
}

#[test]
fn classification_of_observed_paths() {
    let r = validate_from_facts("unknown", &facts(true, true, None, "x"));
    assert_eq!(r.hint, "Unknown path type 'unknown'. Use 'server_folder' or 'steamcmd'");
    assert!(r.is_directory);
    let r = validate_from_facts("steamcmd", &facts(true, false, Some("sh"), "steamcmd.sh"));
    assert_eq!(r.hint, "SteamCMD must be an .exe file, got .sh");
    assert!(!r.valid);
    let r = validate_from_facts("steamcmd", &facts(true, false, Some("exe"), "steamcmd.exe"));
    assert!(r.valid);
    let r = validate_from_facts("steamcmd", &facts(true, false, Some("exe"), "other.exe"));
    assert!(!r.valid);
    let r = validate_from_facts("steamcmd", &facts(true, false, None, "steamcmd"));
    assert_eq!(r.hint, "SteamCMD must have a file extension (.exe)");
    let mut f = facts(true, true, None, "ark");
    assert!(!validate_from_facts("server_folder", &f).valid);
    f.direct_exe_exists = true;
    let r = validate_from_facts("server_folder", &f);
    assert!(r.valid);
    assert_eq!(r.hint, "Valid ARK server installation (direct executable)");
    f.nested_exe_exists = true;
    assert_eq!(validate_from_facts("server_folder", &f).hint, "Valid ARK server installation");
    let r = validate_from_facts("server_folder", &facts(true, false, None, "f"));
    assert_eq!(r.hint, "Server folder must be a directory");
}

#[test]
fn existing_directory_is_not_steamcmd() {
    let r = validate_path_impl("/", "steamcmd");
    assert!(!r.valid);
    assert!(r.exists);
    assert!(r.is_directory);
}

#[test]
fn observed_names_are_lowercased() {
    let f = observe_path("/no/such/dir/SteamCMD.EXE");
    assert!(!f.exists);
    assert_eq!(f.extension, Some("exe".to_string()));
    assert_eq!(f.file_name, "steamcmd.exe");
    let r = validate_from_facts("steamcmd", &PathFacts { exists: true, is_dir: false, ..f });
    assert!(r.valid);
    assert_eq!(r.hint, "Valid SteamCMD executable");
}

#[test]
fn server_folder_and_steamcmd_checks() {
    let dir = PathFacts {
        exists: true,
        is_dir: true,
        nested_exe_exists: false,
        direct_exe_exists: true,
        extension: None,
        file_name: "ark".to_string(),
    };
    let r = validate_server_folder(&dir);
    assert!(r.valid);
    assert_eq!(r.hint, "Valid ARK server installation (direct executable)");
    let r = validate_steamcmd(&dir);
    assert!(!r.valid);
    assert!(r.is_directory);
    let file = PathFacts { is_dir: false, extension: Some("sh".to_string()), file_name: "steamcmd.sh".to_string(), ..dir };
    let r = validate_steamcmd(&file);
    assert_eq!(r.hint, "SteamCMD must be an .exe file, got .sh");
    let r = validate_server_folder(&file);
    assert_eq!(r.hint, "Server folder must be a directory");
}

#[test]
fn probes_and_facts_of_a_path() {
    let (nested, direct) = probe_paths("/srv/ark");
    assert_eq!(nested, "/srv/ark/ShooterGame/Binaries/Win64/ShooterGameServer.exe");
    assert_eq!(direct, "/srv/ark/ShooterGameServer.exe");
    let f = facts_from_probes("/srv/Ark.Folder", true, true, false, true);
    assert!(f.exists && f.is_dir && !f.nested_exe_exists && f.direct_exe_exists);
    assert_eq!(f.extension, Some("folder".to_string()));
    assert_eq!(f.file_name, "ark.folder");
}
