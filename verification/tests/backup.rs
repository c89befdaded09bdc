use ark_server_manager::server_discovery::DiscoveryError;
use ark_server_manager::backup::{
    backup_source_for,
    backup_completed, backup_failed, backup_filename, backup_install_unresolved,
    backup_profile_unavailable, backup_source_dir, backup_source_missing, count_backups,
    list_backups, plan_retention, resolve_backup_dir, resolve_backup_dir_with, time_order,
    zip_entry_name, BackupStage, FileEntry, RetentionPlan,
};
use ark_server_manager::clock::Timestamp;
use chrono::{DateTime, Utc};
use std::path::PathBuf;

fn stamp(t: &DateTime<Utc>) -> Timestamp {
    Timestamp::new(t.timestamp(), t.timestamp_subsec_nanos())
}

fn entry(name: &str, modified: Option<i128>) -> FileEntry {
    FileEntry {
        path: format!("/b/{}", name),
        file_name: Some(name.to_string()),
        modified,
    }
}

#[test]
fn test_resolve_backup_dir_explicit() {
    let explicit = PathBuf::from("/custom/backups");
    let result = resolve_backup_dir(&None, &Some(explicit.to_string_lossy().into_owned()));
    assert_eq!(PathBuf::from(result), explicit);
}

#[test]
fn test_resolve_backup_dir_default() {
    let install_dir = PathBuf::from("/ark/server");
    let result = resolve_backup_dir(&Some(install_dir.to_string_lossy().into_owned()), &None);
    assert_eq!(PathBuf::from(result), install_dir.join("backups"));
}

#[test]
fn test_resolve_backup_dir_totally_fallback() {
    let result = resolve_backup_dir(&None, &None);
    let expected = dirs::data_dir()
        .unwrap_or_else(|| PathBuf::from("."))
        .join("ArkServerManager")
        .join("backups");
    assert_eq!(PathBuf::from(result), expected);
}

#[test]
fn backup_dir_with_given_data_dir() {
    assert_eq!(resolve_backup_dir_with(&None, &None, &Some("/d".to_string())), "/d/ArkServerManager/backups");
    assert_eq!(resolve_backup_dir_with(&None, &None, &None), "./ArkServerManager/backups");
    assert_eq!(
        resolve_backup_dir_with(&Some("/i".to_string()), &Some("/b".to_string()), &None),
        "/b"
    );
}

#[test]
fn test_backup_filename_format() {
    let ts = DateTime::parse_from_rfc3339("2025-01-15T10:30:00Z")
        .unwrap()
        .with_timezone(&Utc);
    let name = backup_filename("MyServer", "backup", &stamp(&ts));
    assert_eq!(name, "MyServer_backup_20250115_103000.zip");
}

#[test]
fn backups_are_counted_by_name() {
    let entries = vec![
        entry("S_backup_1.zip", Some(1)),
        entry("S_backup_2.zip", Some(2)),
        entry("S_backup_3.txt", Some(3)),
        entry("Other_backup_1.zip", Some(4)),
        FileEntry { path: "/b/x".to_string(), file_name: None, modified: None },
    ];
    assert_eq!(count_backups(&entries, "S", "backup"), 2);
    assert_eq!(count_backups(&entries, "Other", "backup"), 1);
    assert_eq!(count_backups(&entries, "S", "daily"), 0);
}

#[test]
fn retention_deletes_the_oldest() {
    let entries = vec![
        entry("S_backup_c.zip", Some(30)),
        entry("S_backup_a.zip", Some(10)),
        entry("notes.txt", Some(0)),
        entry("S_backup_d.zip", None),
        entry("S_backup_b.zip", Some(20)),
        entry("S_backup_e.zip", Some(20)),
    ];
    match plan_retention(&entries, "S", "backup", 3) {
        RetentionPlan::Delete(v) => {
            assert_eq!(v, vec!["/b/S_backup_d.zip", "/b/S_backup_a.zip"]);
        },
        other => panic!("unexpected {:?}", other),
    }
    match plan_retention(&entries, "S", "backup", 5) {
        RetentionPlan::KeepAll(n) => assert_eq!(n, 5),
        other => panic!("unexpected {:?}", other),
    }
    match plan_retention(&entries, "S", "backup", 1) {
        RetentionPlan::Delete(v) => assert_eq!(
            v,
            vec!["/b/S_backup_d.zip", "/b/S_backup_a.zip", "/b/S_backup_b.zip", "/b/S_backup_e.zip"]
        ),
        other => panic!("unexpected {:?}", other),
    }
}

#[test]
fn backups_listed_newest_first() {
    let entries = vec![
        entry("S_backup_1.zip", Some(100)),
        entry("S_backup_2.zip", None),
        entry("S_backup_3.zip", Some(300)),
        entry("S_backup_4.zip", Some(100)),
        entry("x.zip", Some(999)),
    ];
    assert_eq!(
        list_backups(&entries, "S", "backup"),
        vec!["/b/S_backup_3.zip", "/b/S_backup_1.zip", "/b/S_backup_4.zip", "/b/S_backup_2.zip"]
    );
}

#[test]
fn time_order_is_a_stable_sort() {
    let keys = vec![Some(5), None, Some(1), Some(5), None, Some(-3)];
    assert_eq!(time_order(&keys, false), vec![1, 4, 5, 2, 0, 3]);
    assert_eq!(time_order(&keys, true), vec![0, 3, 2, 5, 1, 4]);
    let mut reference: Vec<usize> = (0..keys.len()).collect();
    reference.sort_by_key(|&i| keys[i]);
    assert_eq!(time_order(&keys, false), reference);
    let mut reference: Vec<usize> = (0..keys.len()).collect();
    reference.sort_by_key(|&i| std::cmp::Reverse(keys[i]));
    assert_eq!(time_order(&keys, true), reference);
    assert_eq!(time_order(&vec![], true), Vec::<usize>::new());
}

#[test]
fn archive_names_are_relative_with_forward_slashes() {
    assert_eq!(zip_entry_name("/srv/ark/ShooterGame/Saved/a.ark", "/srv/ark"), "ShooterGame/Saved/a.ark");
    assert_eq!(zip_entry_name("/elsewhere/b.txt", "/srv/ark"), "/elsewhere/b.txt");
    assert_eq!(zip_entry_name("/srv/ark/x\\y.txt", "/srv/ark"), "x/y.txt");
}

#[test]
fn backup_outcomes() {
    let r = backup_failed(BackupStage::CreateDirectory, "denied");
    assert!(r.zip_path.is_none());
    assert_eq!(r.message, "Failed to create backup directory: denied");
    assert_eq!(r.backups_retained, 0);
    assert_eq!(backup_failed(BackupStage::CreateZip, "e").message, "Failed to create ZIP file: e");
    assert_eq!(backup_failed(BackupStage::WriteContents, "e").message, "Failed to write ZIP contents: e");
    assert_eq!(backup_failed(BackupStage::Finalize, "e").message, "Failed to finalize ZIP: e");
    let ok = backup_completed("/b/S_backup_x.zip".to_string(), 12, 3);
    assert_eq!(ok.zip_path, Some("/b/S_backup_x.zip".to_string()));
    assert_eq!(ok.message, "Backup created successfully (12 files)");
    assert_eq!(ok.backups_retained, 3);
    assert_eq!(
        backup_profile_unavailable("S", "Profile 'S' not found").message,
        "Failed to load profile 'S': Profile 'S' not found"
    );
    assert_eq!(backup_install_unresolved("nope").message, "Failed to resolve ARK install path: nope");
    assert_eq!(
        backup_source_missing("/srv/ark").message,
        "ARK server directory does not exist: \"/srv/ark\""
    );
    assert_eq!(backup_source_dir("/srv/ark/ShooterGame/Binaries/Win64/ShooterGameServer.exe"), "/srv/ark");
    assert_eq!(backup_source_dir("/a"), "/");
    assert_eq!(backup_source_dir("/x/b/c/d/e/f"), "/x/b");
    assert_eq!(backup_source_dir("a"), "");
    assert_eq!(backup_source_dir(""), "");
}

#[test]
fn backup_source_from_a_resolution() {
    assert_eq!(
        backup_source_for(Ok("/srv/ark/ShooterGame/Binaries/Win64/ShooterGameServer.exe".to_string())).unwrap(),
        "/srv/ark"
    );
    let failed = backup_source_for(Err(DiscoveryError::InstallNotFound {
        guidance: "g".to_string(),
        missing_executable: "m".to_string(),
    }))
    .unwrap_err();
    assert_eq!(failed.zip_path, None);
    assert_eq!(failed.backups_retained, 0);
    assert_eq!(failed.message, "Failed to resolve ARK install path: ARK server not found. Missing: m. g");
}
