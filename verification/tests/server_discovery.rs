use ark_server_manager::profile::Profile;
use ark_server_manager::server_discovery::{
    default_paths, discovery_outcome, find_install_root, path_is_valid, resolve_ark_exe,
    install_validation, resolve_custom_path, resolve_from, validate_install_for_profile, DiscoveryError,
    ProfileLoad,
    ServerInstall,
};

#[test]
fn test_default_paths_exist() {
    let (ark_exe, steamcmd) = default_paths();
    assert_eq!(
        ark_exe,
        r"C:\Program Files (x86)\Steam\steamapps\common\ARK\ShooterGame\Binaries\Win64\ShooterGameServer.exe"
    );
    assert_eq!(
        steamcmd,
        r"C:\Program Files (x86)\Steam\steamapps\common\ARK\Engine\Binaries\ThirdParty\SteamCMD\steamcmd.exe"
    );
}

#[test]
fn test_path_is_valid_for_nonexistent() {
    assert!(!path_is_valid("C:\\nonexistent\\fake.exe"));
}

#[test]
fn test_server_install_equality() {
    let install1 = ServerInstall {
        steamcmd_path: "steamcmd.exe".to_string(),
        ark_exe_path: "ShooterGameServer.exe".to_string(),
        install_dir: "C:\\ARK".to_string(),
    };
    let install2 = ServerInstall {
        steamcmd_path: "steamcmd.exe".to_string(),
        ark_exe_path: "ShooterGameServer.exe".to_string(),
        install_dir: "C:\\ARK".to_string(),
    };
    assert_eq!(install1, install2);
}

#[test]
fn test_discovery_error_display() {
    let err = DiscoveryError::InstallNotFound {
        guidance: "Install ARK server".to_string(),
        missing_executable: "ShooterGameServer.exe".to_string(),
    };
    let display = err.message();
    assert!(display.contains("ShooterGameServer.exe"));
    assert!(display.contains("Install ARK server"));
}

#[test]
fn install_root_is_nearest_ark_ancestor() {
    assert_eq!(
        find_install_root("/srv/games/ARK/ShooterGame/Binaries/Win64/ShooterGameServer.exe"),
        "/srv/games/ARK"
    );
    assert_eq!(find_install_root("/a/b/c/d/e.exe"), "/a/b");
    assert_eq!(find_install_root("a/b"), "");
}

#[test]
fn discovery_outcomes() {
    let r = discovery_outcome("/x/ARK/a/b/c.exe".to_string(), "/s".to_string(), true, true);
    assert_eq!(
        r.unwrap(),
        ServerInstall {
            steamcmd_path: "/s".to_string(),
            ark_exe_path: "/x/ARK/a/b/c.exe".to_string(),
            install_dir: "/x/ARK".to_string(),
        }
    );
    match discovery_outcome("a".to_string(), "b".to_string(), false, false) {
        Err(DiscoveryError::InstallNotFound { missing_executable, .. }) => {
            assert_eq!(missing_executable, "ShooterGameServer.exe AND steamcmd.exe")
        }
        _ => panic!("expected error"),
    }
    match discovery_outcome("a".to_string(), "b".to_string(), true, false) {
        Err(DiscoveryError::InstallNotFound { missing_executable, .. }) => {
            assert_eq!(missing_executable, "steamcmd.exe")
        }
        _ => panic!("expected error"),
    }
}

#[test]
fn custom_path_resolution() {
    assert_eq!(
        resolve_custom_path("P", "/ark/ShooterGameServer.exe", true).unwrap(),
        "/ark/ShooterGameServer.exe"
    );
    assert_eq!(
        resolve_custom_path("P", "/ark", true).unwrap(),
        "/ark/ShooterGame\\Binaries\\Win64\\ShooterGameServer.exe"
    );
    match resolve_custom_path("P", "/ark", false) {
        Err(DiscoveryError::InstallNotFound { guidance, missing_executable }) => {
            assert_eq!(missing_executable, "ShooterGameServer.exe");
            assert_eq!(guidance, "ShooterGameServer.exe not found at expected location within custom path. Please verify server_install_path in profile 'P' points to the ARK installation directory or ShooterGameServer.exe directly.");
        }
        _ => panic!("expected error"),
    }
}

#[test]
fn custom_path_that_exists_is_searched_and_a_missing_one_falls_back() {
    // "/" exists (a directory): the executable is looked for inside it.
    let in_root = Profile { name: "P".to_string(), server_install_path: Some("/".to_string()), ..Default::default() };
    match resolve_ark_exe(&in_root) {
        Err(DiscoveryError::InstallNotFound { missing_executable, .. }) => {
            assert_eq!(missing_executable, "ShooterGameServer.exe")
        }
        _ => panic!("expected the custom path's error"),
    }
    // Nothing exists at the custom path: the default discovery answers.
    let missing = Profile { name: "P".to_string(), server_install_path: Some("/definitely/not/here".to_string()), ..Default::default() };
    let default = Profile { name: "P".to_string(), ..Default::default() };
    let a = resolve_ark_exe(&missing);
    let b = resolve_ark_exe(&default);
    match (a, b) {
        (
            Err(DiscoveryError::InstallNotFound { missing_executable: m1, guidance: g1 }),
            Err(DiscoveryError::InstallNotFound { missing_executable: m2, guidance: g2 }),
        ) => {
            assert_eq!(m1, m2);
            assert_eq!(g1, g2);
            assert_eq!(m1, "ShooterGameServer.exe AND steamcmd.exe");
        }
        _ => panic!("expected the default discovery's error"),
    }
}

#[test]
fn validation_of_missing_profiles() {
    let r = validate_install_for_profile("P", ProfileLoad::NotFound);
    assert!(!r.is_valid);
    assert_eq!(r.message, "Profile 'P' not found");
    let r = validate_install_for_profile("P", ProfileLoad::ParseFailed("bad".to_string()));
    assert_eq!(r.message, "Failed to parse profile 'P': bad");
    let profile = Profile {
        name: "P".to_string(),
        server_install_path: Some("/definitely/not/here".to_string()),
        ..Default::default()
    };
    assert!(resolve_ark_exe(&profile).is_err());
    let r = validate_install_for_profile("P", ProfileLoad::Loaded(profile));
    assert!(!r.is_valid);
    assert!(r.message.starts_with("ARK server not found. Missing: ShooterGameServer.exe AND steamcmd.exe. "));
}

fn not_found(missing: &str) -> DiscoveryError {
    DiscoveryError::InstallNotFound { guidance: "g".to_string(), missing_executable: missing.to_string() }
}

#[test]
fn resolution_from_what_the_disk_holds() {
    let custom = Profile { name: "P".to_string(), server_install_path: Some("/ark".to_string()), ..Default::default() };
    let plain = Profile { name: "P".to_string(), ..Default::default() };
    // Nothing at the custom path, or no custom path: the default discovery answers.
    assert_eq!(resolve_from(&custom, false, false, Ok("/default/exe".to_string())).unwrap(), "/default/exe");
    assert_eq!(resolve_from(&plain, true, true, Ok("/default/exe".to_string())).unwrap(), "/default/exe");
    match resolve_from(&plain, false, false, Err(not_found("x"))) {
        Err(DiscoveryError::InstallNotFound { missing_executable, .. }) => assert_eq!(missing_executable, "x"),
        _ => panic!("expected the discovery error"),
    }
    // Something at the custom path: the executable under the install root.
    assert_eq!(
        resolve_from(&custom, true, true, Err(not_found("x"))).unwrap(),
        "/ark/ShooterGame\\Binaries\\Win64\\ShooterGameServer.exe"
    );
    let exe = Profile { server_install_path: Some("/ark/ShooterGameServer.exe".to_string()), ..custom.clone() };
    assert_eq!(resolve_from(&exe, true, true, Err(not_found("x"))).unwrap(), "/ark/ShooterGameServer.exe");
    match resolve_from(&custom, true, false, Ok("/default/exe".to_string())) {
        Err(DiscoveryError::InstallNotFound { missing_executable, .. }) => {
            assert_eq!(missing_executable, "ShooterGameServer.exe")
        }
        _ => panic!("expected the custom path's error"),
    }
}

#[test]
fn installation_validation_from_a_resolution() {
    let ok = install_validation("P", Ok("/ark/exe".to_string()));
    assert!(ok.is_valid);
    assert_eq!(ok.ark_exe_path, "/ark/exe");
    assert_eq!(ok.message, "Installation valid for profile 'P'");
    let bad = install_validation("P", Err(not_found("steamcmd.exe")));
    assert!(!bad.is_valid);
    assert_eq!(bad.ark_exe_path, "");
    assert_eq!(bad.message, "ARK server not found. Missing: steamcmd.exe. g");
}
