use ark_server_manager::clock::Timestamp;
use ark_server_manager::profile::Profile;
use ark_server_manager::server_state::{
    build_server_args, check_process_status, decode_console_output, get_working_directory,
    strip_ansi, ConsoleBuffer, ConsoleLine, ServerHandle, ServerState, ServerStatus, StartError,
    StopError, MAX_CONSOLE_BUFFER_LINES,
};

fn now() -> Timestamp {
    let t = chrono::Utc::now();
    Timestamp::new(t.timestamp(), t.timestamp_subsec_nanos())
}

#[test]
fn test_build_server_args_basic() {
    let profile = Profile {
        name: "TestServer".to_string(),
        map: "TheIsland".to_string(),
        difficulty: "1".to_string(),
        max_players: 70,
        admin_password: None,
        port: 27015,
        ..Default::default()
    };

    let args = build_server_args(&profile);

    assert!(args.contains(&"TheIsland".to_string()));
    assert!(args.contains(&"?QueryPort=27015".to_string()));
    assert!(args.contains(&"?MaxPlayers=70".to_string()));
}

#[test]
fn test_build_server_args_with_difficulty() {
    let profile = Profile {
        name: "HardServer".to_string(),
        map: "ScorchedEarth".to_string(),
        difficulty: "5".to_string(),
        max_players: 10,
        admin_password: Some("secret".to_string()),
        port: 27000,
        ..Default::default()
    };

    let args = build_server_args(&profile);

    assert!(args.contains(&"ScorchedEarth".to_string()));
    assert!(args.contains(&"?Difficulty=5".to_string()));
    assert!(args.contains(&"?MaxPlayers=10".to_string()));
    assert!(args.contains(&"?QueryPort=27000".to_string()));
}

#[test]
fn test_build_server_args_with_extra_settings() {
    let extra_settings = vec![("ActiveMods".to_string(), "mod1,mod2".to_string())];

    let profile = Profile {
        name: "ModServer".to_string(),
        map: "TheIsland".to_string(),
        difficulty: "1".to_string(),
        max_players: 70,
        admin_password: None,
        port: 27015,
        extra_settings,
        ..Default::default()
    };

    let args = build_server_args(&profile);

    assert!(args.contains(&"?ActiveMods=mod1,mod2".to_string()));
}

#[test]
fn build_server_args_exact_order() {
    let profile = Profile {
        name: "S".to_string(),
        map: "Ragnarok".to_string(),
        difficulty: "2.5".to_string(),
        max_players: 5,
        admin_password: Some("pw".to_string()),
        port: 27010,
        extra_settings: vec![("A".to_string(), "1".to_string())],
        extra_user_settings: vec![("B".to_string(), "2".to_string())],
        ..Default::default()
    };
    assert_eq!(
        build_server_args(&profile),
        vec![
            "Ragnarok",
            "?QueryPort=27010",
            "?MaxPlayers=5",
            "?Difficulty=2.5",
            "?ServerPassword=S?ServerAdminPassword=pw",
            "?A=1",
            "?B=2",
        ]
    );
}

fn handle() -> ServerHandle {
    ServerHandle {
        pid: 1234,
        profile_name: "TestProfile".to_string(),
        started_at: now(),
        ark_exe_path: "C:\\ARK\\ShooterGameServer.exe".to_string(),
        port: 27015,
    }
}

#[test]
fn test_server_state_insert_get_remove() {
    let mut state = ServerState::new();
    let handle = handle();

    assert!(!state.is_running("TestProfile"));
    assert_eq!(state.get_status("TestProfile"), ServerStatus::Stopped);

    state.insert("TestProfile".to_string(), handle.clone());

    assert!(state.is_running("TestProfile"));
    assert_eq!(state.get_status("TestProfile"), ServerStatus::Running);
    assert_eq!(state.get_handle("TestProfile"), Some(&handle));

    state.remove("TestProfile");

    assert!(!state.is_running("TestProfile"));
    assert_eq!(state.get_status("TestProfile"), ServerStatus::Stopped);
    assert_eq!(state.get_handle("TestProfile"), None);
}

#[test]
fn test_server_state_status_transitions() {
    let mut state = ServerState::new();

    state.set_status("TestProfile", ServerStatus::Starting);
    assert_eq!(state.get_status("TestProfile"), ServerStatus::Starting);

    state.set_status("TestProfile", ServerStatus::Running);
    assert_eq!(state.get_status("TestProfile"), ServerStatus::Running);

    state.set_status("TestProfile", ServerStatus::Stopping);
    assert_eq!(state.get_status("TestProfile"), ServerStatus::Stopping);

    state.set_status("TestProfile", ServerStatus::Stopped);
    assert_eq!(state.get_status("TestProfile"), ServerStatus::Stopped);
}

#[test]
fn server_state_test_get_working_directory() {
    let exe_path =
        "/home/steam/steamapps/common/ARK/ShooterGame/Binaries/Win64/ShooterGameServer.exe";

    let work_dir = get_working_directory(exe_path);

    assert_eq!(work_dir, "/home/steam/steamapps/common/ARK/ShooterGame/Binaries");
}

#[test]
fn server_state_test_get_working_directory_windows() {
    let exe_path =
        r"C:\Program Files (x86)\Steam\steamapps\common\ARK\ShooterGame\Binaries\Win64\ShooterGameServer.exe";
    let work_dir = get_working_directory(exe_path);
    if std::path::MAIN_SEPARATOR == '\\' {
        assert_eq!(work_dir, r"C:\Program Files (x86)\Steam\steamapps\common\ARK\ShooterGame\Binaries");
    } else {
        // Backslashes do not separate components here: the path has one
        // component, so its working directory is empty.
        assert_eq!(work_dir, "");
    }
}

#[test]
fn working_directory_of_short_paths() {
    assert_eq!(get_working_directory("/ShooterGameServer.exe"), "/");
    assert_eq!(get_working_directory("ShooterGameServer.exe"), "");
    assert_eq!(get_working_directory(""), "");
}

#[test]
fn test_start_error_display() {
    let err = StartError::ProfileNotFound {
        name: "TestProfile".to_string(),
    };
    assert_eq!(err.message(), "Profile 'TestProfile' not found");

    let err = StartError::AlreadyRunning {
        name: "TestProfile".to_string(),
        pid: 1234,
    };
    assert_eq!(
        err.message(),
        "Server for profile 'TestProfile' is already running (PID: 1234)"
    );
}

#[test]
fn test_stop_error_display() {
    let err = StopError::NotRunning {
        name: "TestProfile".to_string(),
    };
    assert_eq!(err.message(), "No server running for profile 'TestProfile'");

    let err = StopError::Timeout {
        name: "TestProfile".to_string(),
    };
    assert_eq!(err.message(), "Timeout waiting for server 'TestProfile' to stop");
}

#[test]
fn test_server_handle_with_port() {
    let handle = handle();
    assert_eq!(handle.pid, 1234);
    assert_eq!(handle.port, 27015);
    assert_eq!(handle.profile_name, "TestProfile");
}

#[test]
fn test_server_state_previous_status_tracking() {
    let mut state = ServerState::new();

    state.set_status("TestProfile", ServerStatus::Starting);

    let old_status = state.set_status("TestProfile", ServerStatus::Running);
    assert_eq!(old_status, Some(ServerStatus::Starting));
    assert_eq!(
        state.get_previous_status("TestProfile"),
        Some(ServerStatus::Starting)
    );

    let old_status = state.set_status("TestProfile", ServerStatus::Crashed);
    assert_eq!(old_status, Some(ServerStatus::Running));
    assert_eq!(
        state.get_previous_status("TestProfile"),
        Some(ServerStatus::Running)
    );

    state.remove("TestProfile");
    assert_eq!(state.get_previous_status("TestProfile"), None);
}

#[test]
fn test_server_state_insert_initializes_previous_status() {
    let mut state = ServerState::new();
    state.insert("TestProfile".to_string(), handle());
    assert_eq!(state.get_status("TestProfile"), ServerStatus::Running);
    assert_eq!(
        state.get_previous_status("TestProfile"),
        Some(ServerStatus::Running)
    );
}

#[test]
fn set_status_first_change_returns_stopped() {
    let mut state = ServerState::new();
    assert_eq!(state.set_status("P", ServerStatus::Starting), Some(ServerStatus::Stopped));
    assert_eq!(state.get_previous_status("P"), None);
    assert_eq!(state.set_status("Q", ServerStatus::Stopped), None);
    assert_eq!(state.get_status("Q"), ServerStatus::Stopped);
}

#[test]
fn test_server_state_set_status_no_change() {
    let mut state = ServerState::new();
    state.set_status("TestProfile", ServerStatus::Running);
    let old_status = state.set_status("TestProfile", ServerStatus::Running);
    assert_eq!(old_status, None);
    assert_eq!(state.get_status("TestProfile"), ServerStatus::Running);
}

#[test]
fn detect_status_cases() {
    let mut state = ServerState::new();
    assert_eq!(state.detect_status("P", false, false), (ServerStatus::Stopped, false));
    assert_eq!(state.detect_status("P", false, true), (ServerStatus::Running, true));
    state.insert("P".to_string(), handle());
    assert_eq!(state.detect_status("P", true, false), (ServerStatus::Running, false));
    assert_eq!(state.detect_status("P", false, true), (ServerStatus::Crashed, true));
}

#[test]
fn process_check_matches_pid_and_name() {
    let mut state = ServerState::new();
    let procs = vec![(1234u32, "ShooterGameServer.exe".to_string())];
    assert!(!check_process_status(&state, "TestProfile", &procs));
    state.insert("TestProfile".to_string(), handle());
    assert!(check_process_status(&state, "TestProfile", &procs));
    let other = vec![(1234u32, "bash".to_string()), (99u32, "ShooterGameServer".to_string())];
    assert!(!check_process_status(&state, "TestProfile", &other));
}

#[test]
fn strip_ansi_removes_escape_sequences() {
    assert_eq!(strip_ansi("\x1b[31mred\x1b[0m"), "red");
    assert_eq!(strip_ansi("\x1b[1;32mok\x1b[K done"), "ok done");
    assert_eq!(strip_ansi("\x1b[12"), "\x1b[12");
    assert_eq!(strip_ansi("\x1b(Bplain"), "plain");
    assert_eq!(strip_ansi("a\x1b\u{9b}b"), "ab");
    assert_eq!(strip_ansi("\x1b#8x\x1b"), "x\x1b");
    assert_eq!(strip_ansi("\x1b((=tail"), "tail");
    assert_eq!(strip_ansi("no escapes"), "no escapes");
}

#[test]
fn decode_console_output_utf8_and_windows_1252() {
    assert_eq!(decode_console_output("héllo".as_bytes()), "héllo");
    assert_eq!(decode_console_output(&[0x63, 0x61, 0x66, 0xE9]), "café");
    assert_eq!(decode_console_output(&[0x80]), "€");
}

fn line(text: &str) -> ConsoleLine {
    ConsoleLine {
        profile_name: "P".to_string(),
        timestamp: now(),
        line: text.to_string(),
        source: "stdout".to_string(),
    }
}

#[test]
fn console_buffer_rolls_over_at_capacity() {
    let mut buffer = ConsoleBuffer::new();
    for i in 0..(MAX_CONSOLE_BUFFER_LINES + 5) {
        buffer.push_line("P", line(&i.to_string()));
    }
    let lines = buffer.get_lines("P");
    assert_eq!(lines.len(), MAX_CONSOLE_BUFFER_LINES);
    assert_eq!(lines[0].line, "5");
    assert_eq!(lines[MAX_CONSOLE_BUFFER_LINES - 1].line, (MAX_CONSOLE_BUFFER_LINES + 4).to_string());
    assert!(buffer.get_lines("Q").is_empty());
    buffer.clear("P");
    assert!(buffer.get_lines("P").is_empty());
    buffer.push_line("P", line("x"));
    buffer.remove("P");
    assert!(buffer.get_lines("P").is_empty());
}
