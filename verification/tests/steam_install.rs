use ark_server_manager::build_id_checker::BuildIdInfo;
use ark_server_manager::profile::Profile;
use ark_server_manager::steam_errors::SteamCmdError;
use ark_server_manager::steam_install::{
    choose_steamcmd, install_dir_candidate_for, install_outcome, record_update,
    record_verified_build, resolve_install_dir, status_check_target, steamcmd_status,
    update_outcome, update_refused_while_running, verify_outcome, SteamCmdChoice,
};
use ark_server_manager::update_manager::UpdateResult;

#[test]
fn install_directory_candidates() {
    let local = Some("/l".to_string());
    let p = Profile { name: "S".to_string(), ..Default::default() };
    assert_eq!(install_dir_candidate_for(&p, &local), "/l/ArkServerManager/servers/S");
    let p = Profile {
        name: "S".to_string(),
        server_install_path: Some("/srv/ark/ShooterGame/Binaries/Win64/ShooterGameServer.exe".to_string()),
        ..Default::default()
    };
    assert_eq!(install_dir_candidate_for(&p, &local), "/srv/ark");
    let p = Profile {
        name: "S".to_string(),
        server_install_path: Some("ShooterGameServer.exe".to_string()),
        ..Default::default()
    };
    assert_eq!(install_dir_candidate_for(&p, &local), "/l/ArkServerManager/servers/S");
    let p = Profile {
        name: "S".to_string(),
        server_install_path: Some("/a/b/ShooterGameServer.exe".to_string()),
        ..Default::default()
    };
    assert_eq!(install_dir_candidate_for(&p, &local), "/l/ArkServerManager/servers/S");
    let p = Profile { server_install_path: Some("/srv/ark".to_string()), ..Default::default() };
    assert_eq!(install_dir_candidate_for(&p, &local), "/srv/ark");
    let p = Profile {
        steamcmd_install_dir: Some("/x".to_string()),
        server_install_path: Some("/srv/ark".to_string()),
        ..Default::default()
    };
    assert_eq!(install_dir_candidate_for(&p, &local), "/x");
    let p = Profile { steamcmd_install_dir: Some("/".to_string()), ..Default::default() };
    assert_eq!(resolve_install_dir(&p).unwrap(), "/");
    let p = Profile { steamcmd_install_dir: Some("/no/such/dir/here".to_string()), ..Default::default() };
    assert!(matches!(resolve_install_dir(&p), Err(SteamCmdError::PathTraversal)));
}

#[test]
fn steamcmd_choice() {
    assert!(matches!(choose_steamcmd(Some("/a".to_string()), true, Some("/b".to_string())), SteamCmdChoice::Use(p) if p == "/a"));
    assert!(matches!(choose_steamcmd(Some("/a".to_string()), false, Some("/b".to_string())), SteamCmdChoice::Use(p) if p == "/b"));
    assert!(matches!(choose_steamcmd(None, true, None), SteamCmdChoice::Install));
}

#[test]
fn operation_outcomes() {
    let r = install_outcome(Ok("done".to_string()));
    assert!(r.success);
    assert_eq!(r.message, "ARK server installed successfully");
    assert_eq!(r.output, Some("done".to_string()));
    let r = install_outcome(Err(SteamCmdError::NotFound));
    assert!(!r.success);
    assert_eq!(r.message, "Install failed: SteamCMD not found. Please install SteamCMD first.");
    assert_eq!(r.output, None);
    let u = UpdateResult {
        updated: false,
        previous_build: None,
        new_build: None,
        validation_passed: true,
        output: "o".to_string(),
        build_ids: None,
    };
    assert_eq!(update_outcome(u.clone()).message, "Server is already up to date");
    assert_eq!(update_outcome(UpdateResult { updated: true, ..u }).message, "Server updated successfully");
    assert_eq!(update_refused_while_running(), "Cannot update: server is currently running. Stop the server first.");
    let v = verify_outcome("Success! App '376030' fully installed.".to_string());
    assert!(v.success);
    assert_eq!(v.message, "Server verification successful");
    let v = verify_outcome("Error!".to_string());
    assert!(!v.success);
    assert_eq!(v.message, "Server verification failed - files may be corrupted");
}

#[test]
fn builds_recorded_in_profiles() {
    let mut p = Profile::default();
    record_verified_build(&mut p, Some(12345), Some("/srv".to_string()));
    assert_eq!(p.last_verified_build_id, Some("12345".to_string()));
    assert_eq!(p.steamcmd_install_dir, Some("/srv".to_string()));
    record_verified_build(&mut p, None, None);
    assert_eq!(p.last_verified_build_id, None);
    assert_eq!(p.steamcmd_install_dir, Some("/srv".to_string()));
    let info = BuildIdInfo { current_build: Some(1), available_build: Some(9), update_available: true };
    let u = UpdateResult {
        updated: true,
        previous_build: Some(1),
        new_build: Some(9),
        validation_passed: true,
        output: String::new(),
        build_ids: Some(info),
    };
    record_update(&mut p, &u);
    assert_eq!(p.last_verified_build_id, Some("9".to_string()));
    record_update(&mut p, &UpdateResult { updated: false, ..u });
    assert_eq!(p.last_verified_build_id, Some("9".to_string()));
}

#[test]
fn steamcmd_status_reports() {
    let p = Profile {
        steamcmd_install_dir: Some("/srv".to_string()),
        last_verified_build_id: Some("5".to_string()),
        ..Default::default()
    };
    let found = Some("/usr/bin/steamcmd".to_string());
    assert_eq!(
        status_check_target(&found, &Some(p.clone())),
        Some(("/usr/bin/steamcmd".to_string(), "/srv".to_string()))
    );
    assert_eq!(status_check_target(&None, &Some(p.clone())), None);
    let info = BuildIdInfo { current_build: Some(5), available_build: Some(6), update_available: true };
    let s = steamcmd_status(found.clone(), &Some(p.clone()), Some(Ok(info)));
    assert!(s.steamcmd_found);
    assert_eq!(s.build_id, Some("5".to_string()));
    assert!(s.update_available);
    assert_eq!(s.available_build, Some(6));
    let s = steamcmd_status(None, &None, Some(Err(SteamCmdError::NotFound)));
    assert!(!s.steamcmd_found);
    assert!(!s.update_available);
    assert_eq!(s.current_build, None);
}
