use ark_server_manager::retry::{retry_next, RetryAction};
use ark_server_manager::steam_errors::SteamCmdError;
use ark_server_manager::steam_progress::{parse_eta, progress_parts};
use ark_server_manager::steamcmd_detector::{
    first_usable_candidate, is_executable_mode, steamcmd_candidates, steamcmd_paths,
    validate_steamcmd,
};
use ark_server_manager::steamcmd_installer::{
    check_canonical_path, default_steamcmd_install_dir, extract_steamcmd, installed_steamcmd_path,
    sanitize_install_path, steamcmd_download_url, zip_entry_target, ArchiveFormat,
};
use ark_server_manager::steamcmd_runner::{
    app_status_command, build_script, finish_run, format_speed, join_lines, runner_for,
    spawn_error, stderr_output_line, validation_script, verify_install, RunEnd, RunnerConfig,
};
use ark_server_manager::tray::{tray_click_action, tray_menu_action, tray_menu_items, TrayAction};
use std::path::Path;

#[test]
fn test_build_script() {
    let config = RunnerConfig::new("/usr/bin/steamcmd".to_string());
    let lines = ["app_update 376030"];
    let script = build_script(&lines, &config);

    assert!(script.contains("login anonymous"));
    assert!(script.contains("app_update 376030"));
    assert!(script.contains("quit"));
}

#[test]
fn build_script_exact_text() {
    let config = RunnerConfig::new("steamcmd".to_string());
    let script = build_script(&["a", "b c"], &config);
    assert_eq!(script, "login anonymous\na\nb c\nquit\n");
    let mut config = RunnerConfig::new("steamcmd".to_string());
    config.anonymous_login = false;
    assert_eq!(build_script(&[], &config), "quit\n");
}

#[test]
fn test_format_speed() {
    assert_eq!(format_speed(500), "500 B/s");
    assert_eq!(format_speed(1024), "1.0 KB/s");
    assert_eq!(format_speed(1024 * 1024), "1.0 MB/s");
}

#[test]
fn format_speed_matches_float_formatting() {
    const KB: u64 = 1024;
    const MB: u64 = KB * 1024;
    const GB: u64 = MB * 1024;
    let reference = |b: u64| -> String {
        if b >= GB {
            format!("{:.1} GB/s", b as f64 / GB as f64)
        } else if b >= MB {
            format!("{:.1} MB/s", b as f64 / MB as f64)
        } else if b >= KB {
            format!("{:.1} KB/s", b as f64 / KB as f64)
        } else {
            format!("{} B/s", b)
        }
    };
    let mut samples: Vec<u64> = vec![
        0, 1, 1023, 1024, 1075, 1076, 1126, 1127, 1536, 1587, 1588, 10 * 1024 + 51, 10 * 1024 + 52,
        1024 * 1024 - 1, 1024 * 1024, 1024 * 1024 * 3 / 2, 5 * MB + 52428, 5 * MB + 52429,
        GB - 1, GB, 3 * GB + GB / 20, 1024 * GB, 1 << 53, (1 << 53) + 1, u64::MAX - 1, u64::MAX,
    ];
    // Values around every tie point x.x5 of the kilobyte range.
    for t in 1..200u64 {
        let v = t * 1024 / 20;
        for d in 0..3u64 {
            samples.push(1024 + v + d);
            samples.push(1024 * 1024 + v * 1024 + d);
        }
    }
    let mut seed: u64 = 0x9e3779b97f4a7c15;
    for _ in 0..20000 {
        seed ^= seed << 13;
        seed ^= seed >> 7;
        seed ^= seed << 17;
        samples.push(seed >> (seed % 64));
    }
    for b in samples {
        assert_eq!(format_speed(b), reference(b), "bytes per second: {}", b);
    }
}

#[test]
fn test_parse_eta() {
    let eta = parse_eta("00:05:30");
    assert_eq!(eta, Some(330));
}

#[test]
fn parse_eta_edge_cases() {
    assert_eq!(parse_eta("01:00:00"), Some(3600));
    assert_eq!(parse_eta("invalid"), None);
    assert_eq!(parse_eta("1:2:3"), Some(3723));
    assert_eq!(parse_eta("+1:00:00"), Some(3600));
    assert_eq!(parse_eta("1:2"), None);
    assert_eq!(parse_eta("1:2:3:4"), None);
    assert_eq!(parse_eta("::"), None);
    assert_eq!(parse_eta("a:00:00"), None);
    assert_eq!(parse_eta(" 1:00:00"), None);
}

#[test]
fn test_path_traversal_prevention() {
    let malicious = Path::new("steamcmd/../../../etc/passwd");
    // validate_steamcmd should return false for non-existent paths
    assert!(!validate_steamcmd(malicious.exists(), None));
}

#[test]
fn test_common_paths_exist() {
    for path_str in steamcmd_paths() {
        let path = Path::new(&path_str);
        // This is just a sanity check that all paths are valid Path objects
        assert!(path.components().next().is_some());
    }
}

#[test]
fn steamcmd_validation_needs_an_execute_bit() {
    assert!(is_executable_mode(0o755));
    assert!(is_executable_mode(0o001));
    assert!(!is_executable_mode(0o644));
    assert!(validate_steamcmd(true, Some(0o100)));
    assert!(!validate_steamcmd(true, Some(0o600)));
    assert!(!validate_steamcmd(true, None));
    assert!(!validate_steamcmd(false, Some(0o755)));
}

#[test]
fn steamcmd_search_order() {
    let c = steamcmd_candidates(Some("/a:/b/c"));
    assert_eq!(c.len(), 12);
    assert_eq!(c[0], "steamcmd");
    assert_eq!(c[9], "C:\\Program Files (x86)\\steamcmd\\steamcmd.exe");
    assert_eq!(c[10], "/a/steamcmd");
    assert_eq!(c[11], "/b/c/steamcmd");
    assert_eq!(steamcmd_candidates(None).len(), 10);
    assert_eq!(steamcmd_candidates(Some("")), {
        let mut v = steamcmd_paths();
        v.push("steamcmd".to_string());
        v
    });
    let probes = vec![(false, None), (true, Some(0o644)), (true, Some(0o700)), (true, Some(0o755))];
    assert_eq!(first_usable_candidate(&probes), Some(2));
    assert_eq!(first_usable_candidate(&vec![(false, Some(0o755))]), None);
}

#[test]
fn archive_format_by_magic_bytes() {
    assert_eq!(extract_steamcmd(&[0x50, 0x4B, 3, 4]).unwrap(), ArchiveFormat::Zip);
    assert_eq!(extract_steamcmd(&[0x1F, 0x8B]).unwrap(), ArchiveFormat::TarGz);
    match extract_steamcmd(&[0x50]) {
        Err(SteamCmdError::InstallFailed(m)) => assert_eq!(m, "Invalid archive"),
        other => panic!("unexpected {:?}", other),
    }
    match extract_steamcmd(&[1, 2, 3]) {
        Err(SteamCmdError::InstallFailed(m)) => assert_eq!(m, "Unknown archive format"),
        other => panic!("unexpected {:?}", other),
    }
}

#[test]
fn install_locations() {
    assert_eq!(steamcmd_download_url(true), "https://steamcdn-a.akamaihd.net/client/installer/steamcmd.zip");
    assert_eq!(
        steamcmd_download_url(false),
        "https://steamcdn-a.akamaihd.net/client/installer/steamcmd_linux.tar.gz"
    );
    assert_eq!(installed_steamcmd_path("/opt/s", false), "/opt/s/steamcmd");
    assert_eq!(installed_steamcmd_path("/opt/s", true), "/opt/s/steamcmd.exe");
    assert_eq!(default_steamcmd_install_dir(&Some("/data".to_string())), "/data/ArkServerManager/steamcmd");
    assert_eq!(default_steamcmd_install_dir(&None), "./ArkServerManager/steamcmd");
    assert_eq!(zip_entry_target("/opt/s", "linux32/"), ("/opt/s/linux32/".to_string(), true));
    assert_eq!(zip_entry_target("/opt/s", "steamcmd.sh"), ("/opt/s/steamcmd.sh".to_string(), false));
}

#[test]
fn install_path_sanitizing() {
    assert!(matches!(check_canonical_path(None), Err(SteamCmdError::PathTraversal)));
    assert!(matches!(
        check_canonical_path(Some("/a/../b".to_string())),
        Err(SteamCmdError::PathTraversal)
    ));
    assert_eq!(check_canonical_path(Some("/a/b".to_string())).unwrap(), "/a/b");
    // A relative path is not what canonicalizing gives: it is refused.
    assert!(matches!(check_canonical_path(Some("a/b".to_string())), Err(SteamCmdError::PathTraversal)));
    assert!(matches!(
        sanitize_install_path("/definitely/not/here/ark"),
        Err(SteamCmdError::PathTraversal)
    ));
    assert_eq!(sanitize_install_path("/").unwrap(), "/");
}

#[test]
fn run_outcomes() {
    assert!(matches!(spawn_error(true, "x".to_string()), SteamCmdError::NotFound));
    assert!(matches!(spawn_error(false, "x".to_string()), SteamCmdError::IoError(m) if m == "x"));
    assert_eq!(stderr_output_line("boom"), "[stderr] boom");
    let lines = vec!["one".to_string(), "[stderr] two".to_string()];
    assert_eq!(join_lines(&lines), "one\n[stderr] two");
    assert_eq!(join_lines(&vec![]), "");
    assert_eq!(
        finish_run(RunEnd::Exited { success: true, code: Some(0) }, &lines).unwrap(),
        "one\n[stderr] two"
    );
    assert!(matches!(
        finish_run(RunEnd::Exited { success: false, code: Some(8) }, &lines),
        Err(SteamCmdError::ExitCode(8))
    ));
    assert!(matches!(
        finish_run(RunEnd::Exited { success: false, code: None }, &lines),
        Err(SteamCmdError::ExitCode(-1))
    ));
    assert!(matches!(finish_run(RunEnd::TimedOut(3600), &lines), Err(SteamCmdError::Timeout(3600))));
    assert!(matches!(
        finish_run(RunEnd::WaitFailed("w".to_string()), &lines),
        Err(SteamCmdError::IoError(m)) if m == "w"
    ));
}

#[test]
fn verification_runs() {
    assert_eq!(
        validation_script("/srv/ark"),
        "force_install_dir \"/srv/ark\"\napp_update 376030 validate"
    );
    assert_eq!(app_status_command("/srv/ark"), "force_install_dir \"/srv/ark\"\napp_status 376030");
    assert_eq!(verify_install(Ok("Success! App fully installed.".to_string())).unwrap(), true);
    assert_eq!(verify_install(Ok("Verification complete".to_string())).unwrap(), true);
    assert_eq!(verify_install(Ok("Error! App state is 0x6".to_string())).unwrap(), false);
    assert!(matches!(verify_install(Err(SteamCmdError::NotFound)), Err(SteamCmdError::NotFound)));
    let c = runner_for("/usr/bin/steamcmd", "/srv/ark");
    assert_eq!(c.steamcmd_path, "/usr/bin/steamcmd");
    assert_eq!(c.install_dir, Some("/srv/ark".to_string()));
    assert_eq!(c.timeout_secs, Some(3600));
}

#[test]
fn tray_menu() {
    let items = tray_menu_items();
    assert_eq!(items[0], ("show".to_string(), "Show Window".to_string()));
    assert_eq!(items[2], ("quit".to_string(), "Exit".to_string()));
    assert_eq!(tray_menu_action("show"), TrayAction::ShowWindow);
    assert_eq!(tray_menu_action("start_stop"), TrayAction::ToggleServer);
    assert_eq!(tray_menu_action("quit"), TrayAction::Quit);
    assert_eq!(tray_menu_action("other"), TrayAction::Ignore);
    assert_eq!(tray_click_action(true, true), TrayAction::ShowWindow);
    assert_eq!(tray_click_action(true, false), TrayAction::Ignore);
}

#[test]
fn runner_config_builders() {
    let c = RunnerConfig::new("/usr/bin/steamcmd".to_string());
    assert_eq!(c.install_dir, None);
    assert_eq!(c.timeout_secs, Some(3600));
    assert!(c.anonymous_login);
    assert!(c.extra_args.is_empty());
    let c = c.with_install_dir("/srv".to_string()).with_login("user", "pass");
    assert_eq!(c.install_dir, Some("/srv".to_string()));
    assert!(c.anonymous_login);
    assert_eq!(c.steamcmd_path, "/usr/bin/steamcmd");
}

#[test]
fn retry_decisions() {
    assert_eq!(retry_next(1, 3, true), RetryAction::Done);
    assert_eq!(retry_next(1, 3, false), RetryAction::WaitThenRetry(1));
    assert_eq!(retry_next(2, 3, false), RetryAction::WaitThenRetry(2));
    assert_eq!(retry_next(3, 3, false), RetryAction::GiveUp);
    assert_eq!(retry_next(3, 3, true), RetryAction::Done);
    assert_eq!(retry_next(1, 1, false), RetryAction::GiveUp);
}

#[test]
fn progress_line_parts() {
    let p = progress_parts("  Downloading... 50% (12345678 / 23456789 bytes) @ 1.5 MB/s ETA 00:05:30 ").unwrap();
    assert_eq!(p.line, "Downloading... 50% (12345678 / 23456789 bytes) @ 1.5 MB/s ETA 00:05:30");
    assert_eq!(p.percent_text, Some("50".to_string()));
    assert_eq!(p.bytes, Some((12345678, 23456789)));
    assert_eq!(p.speed_text, Some("1.5 MB/s".to_string()));
    assert_eq!(p.eta_text, Some("00:05:30".to_string()));
    let none = progress_parts("Login successful.").unwrap();
    assert_eq!(none.percent_text, None);
    assert_eq!(none.bytes, None);
    assert_eq!(none.speed_text, None);
    assert_eq!(none.eta_text, None);
    let decimal = progress_parts("Update state 12.75 %").unwrap();
    assert_eq!(decimal.percent_text, Some("12.75".to_string()));
    // A byte count that does not fit a u64 gives the line up.
    assert!(progress_parts("(99999999999999999999 / 5 bytes)").is_none());
}
