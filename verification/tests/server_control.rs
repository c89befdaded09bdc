use ark_server_manager::clock::Timestamp;
use ark_server_manager::profile::Profile;
use ark_server_manager::rcon::{command_failed, connection_failed, query_port_for, PlayerInfo, RconConnError};
use ark_server_manager::server_control::{
    begin_stop, check_start_allowed, finish_stop, force_kill_args, get_log_file_path,
    graceful_kill_args, log_entry, next_player_poll, plan_launch, plan_launch_from, poll_status,
    process_query_command, profile_load_error, rcon_target, record_console_output,
    record_player_list, record_started, status_probe_port, still_running_after_stop,
};
use ark_server_manager::server_discovery::DiscoveryError;
use ark_server_manager::server_state::{ConsoleBuffer, ServerState, ServerStatus, StartError};

fn at(secs: i64, nanos: u32) -> Timestamp {
    Timestamp::new(secs, nanos)
}

#[test]
fn start_and_stop_a_server() {
    let mut state = ServerState::new();
    let mut buffer = ConsoleBuffer::new();
    assert!(check_start_allowed(&state, "S").is_ok());
    let h = record_started(&mut state, "S", 4242, at(100, 0), "/ark/ShooterGameServer.exe".to_string(), 27015);
    assert_eq!(h.pid, 4242);
    assert_eq!(h.port, 27015);
    assert!(state.is_running("S"));
    assert_eq!(state.get_status("S"), ServerStatus::Running);
    assert_eq!(
        check_start_allowed(&state, "S").unwrap_err(),
        "Server for profile 'S' is already running (PID: 4242)"
    );
    assert_eq!(status_probe_port(&state, "S"), 27015);
    assert_eq!(status_probe_port(&state, "T"), 0);

    let (line, entry) = record_console_output(&mut buffer, "S", b"\x1b(Bready\x1b=\n", at(100, 5_000_000), "stdout");
    assert_eq!(line.line, "ready\n");
    assert_eq!(line.source, "stdout");
    assert_eq!(entry, "[1970-01-01 00:01:40.005] [stdout] ready\n\n");
    assert_eq!(buffer.get_lines("S").len(), 1);

    let stopping = begin_stop(&mut state, "S").unwrap();
    assert_eq!(stopping.pid, 4242);
    assert_eq!(state.get_status("S"), ServerStatus::Stopping);
    assert_eq!(state.get_previous_status("S"), Some(ServerStatus::Running));
    finish_stop(&mut state, &mut buffer, "S");
    assert!(!state.is_running("S"));
    assert_eq!(state.get_status("S"), ServerStatus::Stopped);
    assert_eq!(buffer.get_lines("S").len(), 0);
    assert_eq!(begin_stop(&mut state, "S").unwrap_err(), "No server running for profile 'S'");
}

#[test]
fn ports_are_cut_to_sixteen_bits() {
    let mut state = ServerState::new();
    let h = record_started(&mut state, "S", 1, at(0, 0), String::new(), 65536 + 80);
    assert_eq!(h.port, 80);
    let p = Profile { port: 65535, admin_password: None, ..Default::default() };
    assert_eq!(rcon_target(&p), (65535, String::new()));
    let p = Profile { port: 27015, admin_password: Some("pw".to_string()), ..Default::default() };
    assert_eq!(rcon_target(&p), (27016, "pw".to_string()));
    let p = Profile { port: 65536 + 9, ..Default::default() };
    assert_eq!(rcon_target(&p).0, 10);
    assert_eq!(query_port_for(27016), 27015);
    assert_eq!(query_port_for(0), 0);
}

#[test]
fn process_commands() {
    assert_eq!(graceful_kill_args(77), vec!["/PID", "77"]);
    assert_eq!(force_kill_args(77), vec!["/PID", "77", "/F"]);
    assert_eq!(process_query_command(77), "Get-Process -Id 77 -ErrorAction SilentlyContinue");
    assert!(still_running_after_stop(&None, 77));
    assert!(still_running_after_stop(&Some("  77 ShooterGameServer".to_string()), 77));
    assert!(!still_running_after_stop(&Some(String::new()), 77));
}

#[test]
fn status_polling_reports_changes() {
    let mut state = ServerState::new();
    record_started(&mut state, "S", 1, at(0, 0), String::new(), 27015);
    assert!(poll_status(&mut state, "S", true, false).is_none());
    let e = poll_status(&mut state, "S", false, false).unwrap();
    assert_eq!(e.profile_name, "S");
    assert_eq!(e.old_status, ServerStatus::Running);
    assert_eq!(e.new_status, ServerStatus::Crashed);
    assert!(e.is_crash());
    assert_eq!(state.get_status("S"), ServerStatus::Crashed);
    // A profile without a recorded status changes from Stopped.
    let e = poll_status(&mut state, "X", false, true).unwrap();
    assert_eq!(e.old_status, ServerStatus::Stopped);
    assert_eq!(e.new_status, ServerStatus::Running);
    assert_eq!(state.get_status("X"), ServerStatus::Running);
    assert_eq!(state.get_previous_status("X"), None);
    assert!(poll_status(&mut state, "Y", false, false).is_none());
    assert_eq!(next_player_poll(3), (4, false));
    assert_eq!(next_player_poll(4), (5, true));
    assert_eq!(next_player_poll(u32::MAX), (0, true));
}

#[test]
fn player_lists_are_recorded() {
    let mut state = ServerState::new();
    let players = vec![PlayerInfo {
        name: "Bob".to_string(),
        player_id: 1,
        tribe: String::new(),
        joined_at: None,
    }];
    let e = record_player_list(&mut state, "S", players);
    assert_eq!(e.profile_name, "S");
    assert_eq!(e.players.len(), 1);
    assert_eq!(state.get_player_list("S").unwrap().len(), 1);
}

#[test]
fn launch_plans_and_load_errors() {
    let p = Profile {
        name: "S".to_string(),
        server_install_path: Some("/definitely/missing/ark".to_string()),
        ..Default::default()
    };
    let err = plan_launch(&p).unwrap_err();
    assert!(err.starts_with("ARK server not found. Missing: "));
    assert!(matches!(profile_load_error("S", true, String::new()), StartError::ProfileNotFound { name } if name == "S"));
    assert!(matches!(
        profile_load_error("S", false, "eof".to_string()),
        StartError::ProfileLoadFailed { name, reason } if name == "S" && reason == "eof"
    ));
    assert_eq!(
        get_log_file_path(&Some("/d".to_string()), "S", at(0, 0)),
        "/d/ArkServerManager/logs/S/1970-01-01_00-00-00.log"
    );
    assert_eq!(log_entry(at(0, 0), "stderr", "x"), "[1970-01-01 00:00:00.000] [stderr] x\n");
    assert!(matches!(connection_failed("a".to_string(), "r".to_string()), RconConnError::ConnectionFailed { .. }));
    assert!(matches!(command_failed("PlayerId", "r".to_string()), RconConnError::CommandFailed { command, .. } if command == "PlayerId"));
}

#[test]
fn launch_plans_from_a_resolution() {
    let p = Profile { name: "P".to_string(), map: "TheIsland".to_string(), ..Default::default() };
    let plan = plan_launch_from(&p, Ok("/ark/ShooterGame/Binaries/Win64/ShooterGameServer.exe".to_string())).unwrap();
    assert_eq!(plan.exe_path, "/ark/ShooterGame/Binaries/Win64/ShooterGameServer.exe");
    assert_eq!(plan.work_dir, "/ark/ShooterGame/Binaries");
    assert!(!plan.args.is_empty());
    let err = plan_launch_from(
        &p,
        Err(DiscoveryError::InstallNotFound { guidance: "g".to_string(), missing_executable: "m".to_string() }),
    )
    .unwrap_err();
    assert_eq!(err, "ARK server not found. Missing: m. g");
}
