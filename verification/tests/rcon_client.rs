use ark_server_manager::rcon::{parse_player_list, PlayerInfo, RconConnError};

#[test]
fn test_parse_player_list_basic() {
    let output = "PlayerId list:
PlayerName1 (ID:12345) (Tribe:TribeName1)
PlayerName2 (ID:67890) (Tribe:)
PlayerName3 (ID:11111)
Total players connected: 3";

    let players = parse_player_list(output);

    assert_eq!(players.len(), 3);
    assert_eq!(players[0].name, "PlayerName1");
    assert_eq!(players[0].player_id, 12345);
    assert_eq!(players[0].tribe, "TribeName1");
    assert_eq!(players[1].name, "PlayerName2");
    assert_eq!(players[1].player_id, 67890);
    assert_eq!(players[1].tribe, "");
    assert_eq!(players[2].name, "PlayerName3");
    assert_eq!(players[2].player_id, 11111);
    assert_eq!(players[2].tribe, "");
}

#[test]
fn test_parse_player_list_empty_tribe() {
    let output = "PlayerName (ID:12345) (Tribe:)";
    let players = parse_player_list(output);
    assert_eq!(players.len(), 1);
    assert_eq!(players[0].tribe, "");
}

#[test]
fn test_parse_player_list_no_tribe() {
    let output = "PlayerName (ID:12345)";
    let players = parse_player_list(output);
    assert_eq!(players.len(), 1);
    assert_eq!(players[0].name, "PlayerName");
    assert_eq!(players[0].player_id, 12345);
    assert_eq!(players[0].tribe, "");
}

#[test]
fn test_parse_player_list_empty_output() {
    let output = "";
    let players = parse_player_list(output);
    assert!(players.is_empty());
}

#[test]
fn test_parse_player_list_header_lines_only() {
    let output = "PlayerId list:\nTotal players connected: 0";
    let players = parse_player_list(output);
    assert!(players.is_empty());
}

#[test]
fn test_parse_player_line_with_spaces_in_name() {
    let line = "John Doe (ID:12345) (Tribe:Awesome Tribe)";
    let players = parse_player_list(line);
    assert_eq!(players.len(), 1);
    assert_eq!(players[0].name, "John Doe");
    assert_eq!(players[0].player_id, 12345);
    assert_eq!(players[0].tribe, "Awesome Tribe");
}

#[test]
fn test_parse_player_line_invalid() {
    let line = "Invalid line format";
    let players = parse_player_list(line);
    assert!(players.is_empty());
}

#[test]
fn test_parse_player_line_no_id() {
    let line = "PlayerName (NoID)";
    let players = parse_player_list(line);
    assert!(players.is_empty());
}

#[test]
fn test_parse_player_line_invalid_id() {
    let line = "PlayerName (ID:abc)";
    let players = parse_player_list(line);
    assert!(players.is_empty());
}

#[test]
fn test_player_info_display() {
    let player = PlayerInfo {
        name: "TestPlayer".to_string(),
        player_id: 12345,
        tribe: "TestTribe".to_string(),
        joined_at: None,
    };
    assert_eq!(
        player.to_display_string(),
        "TestPlayer (ID:12345) [Tribe:TestTribe]"
    );
}

#[test]
fn test_player_info_display_no_tribe() {
    let player = PlayerInfo {
        name: "TestPlayer".to_string(),
        player_id: 12345,
        tribe: "".to_string(),
        joined_at: None,
    };
    assert_eq!(player.to_display_string(), "TestPlayer (ID:12345) [Tribe:None]");
}

#[test]
fn test_parse_player_list_with_whitespace() {
    let output =
        "  PlayerName1 (ID:12345) (Tribe:TribeName1)  \n  \n  PlayerName2 (ID:67890)  ";
    let players = parse_player_list(output);
    assert_eq!(players.len(), 2);
}

#[test]
fn test_parse_player_list_tribe_with_spaces() {
    let output = "PlayerName (ID:12345) (Tribe:My Awesome Tribe)";
    let players = parse_player_list(output);
    assert_eq!(players.len(), 1);
    assert_eq!(players[0].tribe, "My Awesome Tribe");
}

#[test]
fn test_parse_player_list_tribe_empty_after_colon() {
    let output = "PlayerName (ID:12345) (Tribe:)";
    let players = parse_player_list(output);
    assert_eq!(players.len(), 1);
    assert_eq!(players[0].tribe, "");
}

#[test]
fn test_rcon_error_display() {
    let err = RconConnError::ConnectionFailed {
        addr: "127.0.0.1:27016".to_string(),
        reason: "Connection refused".to_string(),
    };
    assert_eq!(
        err.message(),
        "RCON connection failed to 127.0.0.1:27016: Connection refused"
    );
}

#[test]
fn test_rcon_error_from_auth() {
    let err = RconConnError::from_client_failure(true, "ignored".to_string());
    match err {
        RconConnError::AuthFailed { reason } => {
            assert!(reason.contains("Authentication failed"));
        }
        _ => panic!("Expected AuthFailed variant"),
    }
}

#[test]
fn test_parse_player_line_malformed_tribe() {
    let line = "PlayerName (ID:12345) (Tribe:TestTribe";
    let players = parse_player_list(line);
    assert_eq!(players.len(), 1);
    assert_eq!(players[0].tribe, "TestTribe");
}

#[test]
fn parse_player_list_crlf_and_plus_sign_ids() {
    let output = "A (ID:+7)\r\nB (ID:-7)\r\nC (ID:18446744073709551616)\r\nD (ID:18446744073709551615) (Tribe:X) extra\r\n";
    let players = parse_player_list(output);
    assert_eq!(players.len(), 2);
    assert_eq!(players[0].name, "A");
    assert_eq!(players[0].player_id, 7);
    assert_eq!(players[1].name, "D");
    assert_eq!(players[1].player_id, u64::MAX);
    assert_eq!(players[1].tribe, "X");
}

#[test]
fn rcon_error_messages_of_every_variant() {
    let cases = vec![
        (RconConnError::AuthFailed { reason: "r".to_string() }, "RCON authentication failed: r"),
        (
            RconConnError::CommandFailed { command: "c".to_string(), reason: "r".to_string() },
            "RCON command 'c' failed: r",
        ),
        (
            RconConnError::ServerNotRunning { profile_name: "p".to_string() },
            "Server for profile 'p' is not running",
        ),
        (RconConnError::ProfileNotFound { name: "p".to_string() }, "Profile 'p' not found"),
        (
            RconConnError::ProfileLoadFailed { name: "p".to_string(), reason: "r".to_string() },
            "Failed to load profile 'p': r",
        ),
        (RconConnError::PortNotAvailable { port: 27016 }, "RCON port 27016 is not available"),
        (RconConnError::Timeout { command: "c".to_string() }, "RCON command 'c' timed out"),
    ];
    for (err, expected) in cases {
        assert_eq!(err.message(), expected);
    }
}

#[test]
fn rcon_error_from_other_failure() {
    let err = RconConnError::from_client_failure(false, "broken pipe".to_string());
    match err {
        RconConnError::ConnectionFailed { addr, reason } => {
            assert_eq!(addr, "unknown");
            assert_eq!(reason, "broken pipe");
        }
        _ => panic!("Expected ConnectionFailed variant"),
    }
}
