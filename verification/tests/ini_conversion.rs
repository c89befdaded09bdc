use ark_server_manager::ini_conversion::{
    ini_to_profile_values, profile_to_game_ini, profile_to_game_user_settings_ini,
};
use ark_server_manager::profile::Profile;

fn difficulty_of(text: Option<String>) -> f64 {
    text.expect("a difficulty").parse::<f64>().expect("a number")
}

fn extra(settings: &[(String, String)], key: &str) -> Option<String> {
    settings.iter().find(|(k, _)| k == key).map(|(_, v)| v.clone())
}

#[test]
fn test_profile_to_game_ini() {
    let profile = Profile {
        name: "TestServer".to_string(),
        map: "ScorchedEarth".to_string(),
        difficulty: 3.0f64.to_string(),
        max_players: 50,
        ..Default::default()
    };

    let ini_str = profile_to_game_ini(&profile);

    let (parsed, difficulty) = ini_to_profile_values(&ini_str, "game", None).unwrap();
    assert_eq!(difficulty_of(difficulty), 3.0);
    assert_eq!(parsed.max_players, 50);
    assert_eq!(parsed.map, "ScorchedEarth");
}

#[test]
fn test_profile_to_game_user_settings_ini() {
    let profile = Profile {
        name: "TestServer".to_string(),
        admin_password: Some("hunter2".to_string()),
        port: 27015,
        ..Default::default()
    };

    let ini_str = profile_to_game_user_settings_ini(&profile);

    let (parsed, _) = ini_to_profile_values(&ini_str, "user", None).unwrap();
    assert_eq!(parsed.admin_password, Some("hunter2".to_string()));
    assert_eq!(parsed.port, 27015);
}

#[test]
fn test_ini_to_profile_roundtrip_game() {
    let profile = Profile {
        name: "RoundtripTest".to_string(),
        map: "Ragnarok".to_string(),
        difficulty: 7.0f64.to_string(),
        max_players: 80,
        ..Default::default()
    };

    let ini_str = profile_to_game_ini(&profile);
    let (parsed, difficulty) = ini_to_profile_values(&ini_str, "game", None).unwrap();

    assert_eq!(difficulty_of(difficulty), 7.0);
    assert_eq!(parsed.max_players, 80);
    assert_eq!(parsed.map, "Ragnarok");
}

#[test]
fn test_ini_to_profile_roundtrip_user() {
    let profile = Profile {
        name: "RoundtripTest".to_string(),
        admin_password: Some("securepass".to_string()),
        port: 27010,
        ..Default::default()
    };

    let ini_str = profile_to_game_user_settings_ini(&profile);
    let (parsed, _) = ini_to_profile_values(&ini_str, "user", None).unwrap();

    assert_eq!(parsed.admin_password, Some("securepass".to_string()));
    assert_eq!(parsed.port, 27010);
}

#[test]
fn typed_keys_are_never_extra_settings() {
    let text = "[/script/shootergame/shootreplicationlibrary]\nMaxPlayers=50\nAkset_MapName=Ragnarok\nDifficultyOffset=2.5\nHarvestAmount=3\nFlag\n";
    let (p, difficulty) = ini_to_profile_values(text, "game", None).unwrap();
    assert_eq!(p.max_players, 50);
    assert_eq!(p.map, "Ragnarok");
    assert_eq!(difficulty, Some("2.5".to_string()));
    assert_eq!(p.extra_settings.len(), 1);
    assert_eq!(extra(&p.extra_settings, "harvestamount"), Some("3".to_string()));
    assert_eq!(p.difficulty, "1");
    assert_eq!(p.schema_version, 1);
}

#[test]
fn user_settings_keep_their_extras_and_the_base() {
    let base = Profile {
        name: "Base".to_string(),
        max_players: 12,
        backup_dir: Some("/b".to_string()),
        extra_user_settings: vec![("old".to_string(), "1".to_string())],
        schema_version: 0,
        ..Default::default()
    };
    let text = "[GameUserSettings]\nAdminPassword=pw\nQueryPort=not-a-number\nServerPVE=True\nold=2\n";
    let (p, difficulty) = ini_to_profile_values(text, "user", Some(base)).unwrap();
    assert_eq!(difficulty, None);
    assert_eq!(p.admin_password, Some("pw".to_string()));
    assert_eq!(p.port, 27015);
    assert_eq!(p.name, "Base");
    assert_eq!(p.max_players, 12);
    assert_eq!(p.backup_dir, Some("/b".to_string()));
    assert_eq!(p.schema_version, 1);
    assert_eq!(p.extra_user_settings.len(), 2);
    assert_eq!(extra(&p.extra_user_settings, "serverpve"), Some("True".to_string()));
    assert_eq!(extra(&p.extra_user_settings, "old"), Some("2".to_string()));
}

#[test]
fn unparsable_ini_is_an_error() {
    let r = ini_to_profile_values("[broken\nKey=1\n", "game", None);
    assert_eq!(
        r.unwrap_err(),
        "Failed to parse INI: line 1: Found opening bracket for section name but no closing bracket"
    );
}

#[test]
fn written_game_ini_has_a_header_and_one_line_per_key() {
    let profile = Profile {
        map: "Ragnarok".to_string(),
        difficulty: "7".to_string(),
        max_players: 80,
        extra_settings: vec![("HarvestAmount".to_string(), "2".to_string())],
        ..Default::default()
    };
    let text = profile_to_game_ini(&profile);
    let mut lines: Vec<&str> = text.lines().collect();
    assert_eq!(lines.remove(0), "[/script/shootergame/shootreplicationlibrary]");
    lines.sort();
    assert_eq!(lines, vec!["akset_mapname=Ragnarok", "difficultyoffset=7", "harvestamount=2", "maxplayers=80"]);
    let user = profile_to_game_user_settings_ini(&Profile { admin_password: None, port: 27010, ..Default::default() });
    assert_eq!(user.lines().collect::<Vec<_>>(), vec!["[gameusersettings]", "queryport=27010"]);
}
