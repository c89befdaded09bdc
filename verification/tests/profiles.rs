use ark_server_manager::clock::Timestamp;
use ark_server_manager::ini_conversion::{
    apply_game_ini, apply_user_ini, game_ini_entries, ini_base_profile, ini_profile_name,
    sanitize_name_for_filename, set_setting, user_ini_entries, SECTION_GAME_USER_SETTINGS,
    SECTION_SERVER_SETTINGS,
};
use ark_server_manager::notifications::{
    notify_backup_completed, notify_crash_detected, notify_server_started, notify_server_stopped,
};
use ark_server_manager::profile::{
    invalid_profile_message, is_profile_file, profile_metadata, profile_not_found_message,
    profile_path, profiles_dir, serialization_failed_message, Profile, PROFILE_SCHEMA_VERSION,
};
use ark_server_manager::{logs_dir, server_log_dir, server_log_dir_for};

#[test]
fn test_profile_default() {
    let p = Profile::default();
    assert_eq!(p.schema_version, PROFILE_SCHEMA_VERSION);
    assert_eq!(p.map, "TheIsland");
    assert_eq!(p.difficulty, "1");
    assert_eq!(p.max_players, 70);
    assert_eq!(p.port, 27015);
}

#[test]
fn profile_files_and_messages() {
    assert_eq!(profiles_dir(&Some("/d".to_string())), "/d/ArkServerManager/profiles");
    assert_eq!(profile_path("/p", "My Server"), "/p/My Server.json");
    assert!(is_profile_file("/p/a.json"));
    assert!(!is_profile_file("/p/a.json.bak"));
    assert!(!is_profile_file("/p/.json"));
    assert_eq!(profile_not_found_message("X"), "Profile 'X' not found");
    assert_eq!(invalid_profile_message("eof"), "Invalid profile JSON: eof");
    assert_eq!(serialization_failed_message("e"), "Serialization failed: e");
    let p = Profile { name: "A".to_string(), map: "Ragnarok".to_string(), ..Default::default() };
    let t = Timestamp::new(5, 0);
    let m = profile_metadata(&p, None, t);
    assert_eq!((m.name.as_str(), m.map.as_str(), m.last_modified), ("A", "Ragnarok", t));
    let m = profile_metadata(&p, Some(Timestamp::new(1, 2)), t);
    assert_eq!(m.last_modified, Timestamp::new(1, 2));
}

#[test]
fn log_locations() {
    assert_eq!(logs_dir(&Some("/l".to_string())), "/l/ArkServerManager/logs");
    assert_eq!(server_log_dir_for(&Some("/l".to_string()), "S"), "/l/ArkServerManager/logs/servers/S");
    let expected = dirs::data_local_dir()
        .unwrap_or_else(|| std::path::PathBuf::from("."))
        .join("ArkServerManager")
        .join("logs")
        .join("servers")
        .join("S");
    assert_eq!(std::path::PathBuf::from(server_log_dir("S")), expected);
}

#[test]
fn file_safe_names() {
    assert_eq!(sanitize_name_for_filename("My Server-1_x"), "My Server-1_x");
    assert_eq!(sanitize_name_for_filename("a/b:c*?"), "a_b_c__");
    assert_eq!(sanitize_name_for_filename("Ärger ①"), "Ärger ①");
    assert_eq!(ini_profile_name(None), "Unnamed");
    assert_eq!(ini_profile_name(Some("Saved.Config".to_string())), "Saved_Config");
}

#[test]
fn game_ini_values_apply_to_a_profile() {
    let mut p = ini_base_profile(None);
    assert_eq!(p.schema_version, PROFILE_SCHEMA_VERSION);
    let section = vec![
        ("MaxPlayers".to_string(), Some("50".to_string())),
        ("ActiveMods".to_string(), Some("1,2".to_string())),
        ("Empty".to_string(), None),
        ("ActiveMods".to_string(), Some("3".to_string())),
    ];
    apply_game_ini(&mut p, Some("50"), Some("ScorchedEarth".to_string()), &section);
    assert_eq!(p.max_players, 50);
    assert_eq!(p.map, "ScorchedEarth");
    assert_eq!(p.extra_settings, vec![("ActiveMods".to_string(), "3".to_string())]);
    apply_game_ini(&mut p, Some("many"), None, &vec![]);
    assert_eq!(p.max_players, 50);
    apply_game_ini(&mut p, Some("+7"), None, &vec![]);
    assert_eq!(p.max_players, 7);
    apply_game_ini(&mut p, Some("4294967296"), None, &vec![]);
    assert_eq!(p.max_players, 7);
    let lowered = vec![
        ("maxplayers".to_string(), Some("9".to_string())),
        ("AKSET_MAPNAME".to_string(), Some("X".to_string())),
        ("difficultyoffset".to_string(), Some("2".to_string())),
    ];
    apply_game_ini(&mut p, None, None, &lowered);
    assert_eq!(p.extra_settings, vec![("ActiveMods".to_string(), "3".to_string())]);
}

#[test]
fn user_ini_values_apply_to_a_profile() {
    let mut p = ini_base_profile(Some(Profile { name: "B".to_string(), schema_version: 0, ..Default::default() }));
    assert_eq!(p.schema_version, PROFILE_SCHEMA_VERSION);
    assert_eq!(p.name, "B");
    let section = vec![
        ("AdminPassword".to_string(), Some("pw".to_string())),
        ("QueryPort".to_string(), Some("27010".to_string())),
        ("ServerPVE".to_string(), Some("True".to_string())),
    ];
    apply_user_ini(&mut p, Some("pw".to_string()), Some("27010"), &section);
    assert_eq!(p.admin_password, Some("pw".to_string()));
    assert_eq!(p.port, 27010);
    assert_eq!(p.extra_user_settings, vec![("ServerPVE".to_string(), "True".to_string())]);
}

#[test]
fn ini_values_written_by_a_profile() {
    let mut p = Profile {
        map: "Ragnarok".to_string(),
        difficulty: "7".to_string(),
        max_players: 80,
        admin_password: Some(String::new()),
        port: 27010,
        ..Default::default()
    };
    set_setting(&mut p.extra_settings, "ActiveMods".to_string(), "1".to_string());
    set_setting(&mut p.extra_settings, "ActiveMods".to_string(), "2".to_string());
    assert_eq!(
        game_ini_entries(&p),
        vec![
            ("DifficultyOffset".to_string(), "7".to_string()),
            ("MaxPlayers".to_string(), "80".to_string()),
            ("Akset_MapName".to_string(), "Ragnarok".to_string()),
            ("ActiveMods".to_string(), "2".to_string()),
        ]
    );
    assert_eq!(user_ini_entries(&p), vec![("QueryPort".to_string(), "27010".to_string())]);
    p.admin_password = Some("hunter2".to_string());
    assert_eq!(
        user_ini_entries(&p),
        vec![
            ("AdminPassword".to_string(), "hunter2".to_string()),
            ("QueryPort".to_string(), "27010".to_string()),
        ]
    );
}

#[test]
fn notification_texts() {
    let n = notify_server_started("S");
    assert_eq!((n.title.as_str(), n.body.as_str()), ("ARK Server Started", "Server 'S' is now running."));
    let n = notify_server_stopped("S");
    assert_eq!((n.title.as_str(), n.body.as_str()), ("ARK Server Stopped", "Server 'S' has been stopped."));
    let n = notify_backup_completed("S", "/b/x.zip");
    assert_eq!(n.title, "ARK Backup Complete");
    assert_eq!(n.body, "Backup for 'S' completed successfully.\nSaved to: /b/x.zip");
    let n = notify_crash_detected("S");
    assert_eq!(n.title, "ARK Server Crashed");
    assert_eq!(n.body, "Server 'S' has crashed. A crash report has been saved.");
}

fn ini_text(section: &str, entries: Vec<(String, String)>) -> String {
    let mut ini = configparser::ini::Ini::new();
    for (k, v) in entries {
        ini.set(section, &k, Some(v));
    }
    ini.writes()
}

#[test]
fn game_ini_roundtrip_through_configparser() {
    let p = Profile {
        name: "RoundtripTest".to_string(),
        map: "Ragnarok".to_string(),
        difficulty: "7".to_string(),
        max_players: 80,
        ..Default::default()
    };
    let text = ini_text(SECTION_SERVER_SETTINGS, game_ini_entries(&p));
    let mut ini = configparser::ini::Ini::new();
    ini.read(text).unwrap();
    let mut parsed = ini_base_profile(None);
    let max_players = ini.get(SECTION_SERVER_SETTINGS, "MaxPlayers");
    let map = ini.get(SECTION_SERVER_SETTINGS, "Akset_MapName");
    apply_game_ini(&mut parsed, max_players.as_deref(), map, &vec![]);
    assert_eq!(parsed.max_players, 80);
    assert_eq!(parsed.map, "Ragnarok");
    assert_eq!(ini.get(SECTION_SERVER_SETTINGS, "DifficultyOffset"), Some("7".to_string()));
}

#[test]
fn user_ini_roundtrip_through_configparser() {
    let p = Profile {
        name: "RoundtripTest".to_string(),
        admin_password: Some("securepass".to_string()),
        port: 27010,
        ..Default::default()
    };
    let text = ini_text(SECTION_GAME_USER_SETTINGS, user_ini_entries(&p));
    let mut ini = configparser::ini::Ini::new();
    ini.read(text).unwrap();
    let mut parsed = ini_base_profile(None);
    let password = ini.get(SECTION_GAME_USER_SETTINGS, "AdminPassword");
    let port = ini.get(SECTION_GAME_USER_SETTINGS, "QueryPort");
    apply_user_ini(&mut parsed, password, port.as_deref(), &vec![]);
    assert_eq!(parsed.admin_password, Some("securepass".to_string()));
    assert_eq!(parsed.port, 27010);
}
