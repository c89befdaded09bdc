use ark_server_manager::steam_errors::{parse_exit_status, SteamCmdError};

#[test]
fn test_error_display() {
    let err = SteamCmdError::NotFound;
    assert!(err.message().contains("SteamCMD not found"));
}

#[test]
fn test_server_running_message() {
    let err = SteamCmdError::ServerRunning;
    assert!(err.message().contains("running"));
}

#[test]
fn test_path_traversal_message() {
    let err = SteamCmdError::PathTraversal;
    assert!(err.message().contains("Path traversal"));
}

#[test]
fn steam_error_messages_with_numbers() {
    assert_eq!(SteamCmdError::Timeout(3600).message(), "SteamCMD timed out after 3600 seconds.");
    assert_eq!(SteamCmdError::ExitCode(-1).message(), "SteamCMD exited with error code: -1");
    assert_eq!(
        SteamCmdError::ExitCode(i32::MIN).message(),
        format!("SteamCMD exited with error code: {}", i32::MIN)
    );
    assert_eq!(SteamCmdError::IoError("x".to_string()).message(), "IO error: x");
    assert_eq!(
        SteamCmdError::NetworkError("x".to_string()).message(),
        "Network error: x. Check your internet connection."
    );
}

#[test]
fn exit_status_interpretation() {
    assert!(parse_exit_status(true, Some(0)).is_none());
    match parse_exit_status(false, Some(8)) {
        Some(SteamCmdError::ExitCode(8)) => {}
        other => panic!("unexpected {:?}", other),
    }
    match parse_exit_status(false, None) {
        Some(SteamCmdError::ExitCode(-1)) => {}
        other => panic!("unexpected {:?}", other),
    }
}
