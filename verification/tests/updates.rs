use ark_server_manager::build_id_checker::{parse_current_build_id, read_build_ids, BuildIdInfo};
use ark_server_manager::clock::Timestamp;
use ark_server_manager::server_state::{ServerHandle, ServerState};
use ark_server_manager::steam_errors::SteamCmdError;
use ark_server_manager::update_manager::{
    build_check_script, check_for_updates, check_update_allowed, is_server_running, retries_exhausted,
    update_result, update_script, UpdateResult,
};

#[test]
fn test_build_id_info_needs_update() {
    let info = BuildIdInfo {
        current_build: Some(1000),
        available_build: Some(1001),
        update_available: true,
    };
    assert!(info.needs_update());
}

#[test]
fn test_build_id_info_no_update() {
    let info = BuildIdInfo {
        current_build: Some(1000),
        available_build: Some(1000),
        update_available: false,
    };
    assert!(!info.needs_update());
}

#[test]
fn test_update_result_debug() {
    let result = UpdateResult {
        updated: true,
        previous_build: Some(1000),
        new_build: Some(1001),
        validation_passed: true,
        output: "Success".to_string(),
        build_ids: None,
    };
    let debug = format!("{:?}", result);
    assert!(debug.contains("updated: true"));
}

#[test]
fn update_checks_read_build_ids() {
    let out = "Loading\nBuild ID: 1000\nsomething\nBuild ID:   1005\n".to_string();
    let info = check_for_updates(Ok(out)).unwrap();
    assert_eq!(info.current_build, Some(1000));
    assert_eq!(info.available_build, Some(1005));
    assert!(info.update_available);
    let same = check_for_updates(Ok("Build ID: 7".to_string())).unwrap();
    assert_eq!(same.current_build, Some(7));
    assert_eq!(same.available_build, Some(7));
    assert!(!same.update_available);
    let none = check_for_updates(Ok("nothing here".to_string())).unwrap();
    assert_eq!(none.current_build, None);
    assert!(!none.update_available);
    assert!(matches!(check_for_updates(Err(SteamCmdError::Timeout(5))), Err(SteamCmdError::Timeout(5))));
}

#[test]
fn update_summaries() {
    let before = BuildIdInfo { current_build: Some(1), available_build: Some(2), update_available: true };
    let after = BuildIdInfo { current_build: Some(2), available_build: Some(2), update_available: false };
    let r = update_result(before, after, true, "out".to_string());
    assert!(r.updated);
    assert_eq!(r.previous_build, Some(1));
    assert_eq!(r.new_build, Some(2));
    assert_eq!(r.output, "out");
    assert_eq!(r.build_ids.unwrap().available_build, Some(2));
    let r2 = update_result(after, after, false, String::new());
    assert!(!r2.updated);
    assert!(!r2.validation_passed);
    let unknown = BuildIdInfo { current_build: None, available_build: None, update_available: false };
    assert!(update_result(unknown, after, true, String::new()).updated);
    assert!(!update_result(unknown, unknown, true, String::new()).updated);
    assert!(matches!(retries_exhausted(), SteamCmdError::DownloadFailed(m) if m == "Max retries exceeded"));
    assert_eq!(build_check_script("/d"), "force_install_dir \"/d\"\napp_update 376030 -checksrc");
    assert_eq!(update_script("/d"), "force_install_dir \"/d\"\napp_update 376030");
}

#[test]
fn updates_are_refused_while_the_server_runs() {
    let mut state = ServerState::new();
    assert!(!is_server_running(&state, "/srv/ark"));
    assert!(check_update_allowed(&state, "/srv/ark").is_ok());
    let handle = ServerHandle {
        pid: 42,
        profile_name: "Island".to_string(),
        started_at: Timestamp::new(0, 0),
        ark_exe_path: "/srv/ark/ShooterGame/Binaries/Win64/ShooterGameServer.exe".to_string(),
        port: 27015,
    };
    state.insert("Island".to_string(), handle);
    assert!(is_server_running(&state, "/srv/ark"));
    assert!(matches!(check_update_allowed(&state, "/srv/ark"), Err(SteamCmdError::ServerRunning)));
    assert!(!is_server_running(&state, "/srv/ark2"));
    assert!(check_update_allowed(&state, "/srv/other").is_ok());
    state.remove("Island");
    assert!(!is_server_running(&state, "/srv/ark"));
}

#[test]
fn build_ids_read_from_output() {
    let info = read_build_ids("Build ID: 10\nnoise Build ID:\t12 tail\n").unwrap();
    assert_eq!(info.current_build, Some(10));
    assert_eq!(info.available_build, Some(12));
    assert!(info.update_available);
    assert!(read_build_ids("Build ID: 99999999999999999999999\n").is_none());
    assert_eq!(parse_current_build_id("x\nBuild ID: 77\nBuild ID: 78\n"), Some(77));
    assert_eq!(parse_current_build_id("no ids"), None);
}
