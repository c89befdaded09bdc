use ark_server_manager::backup::FileEntry;
use ark_server_manager::clock::Timestamp;
use ark_server_manager::crash_report::{
    crash_report_file_name, crash_reports_dir, list_crash_reports, CrashReportError, SystemInfo,
    APP_VERSION,
};
use std::path::PathBuf;

#[test]
fn test_crash_report_error_display() {
    let temp_dir = PathBuf::from("/tmp/ark-crash-report-test");

    let err = CrashReportError::DirectoryCreationFailed(
        temp_dir.to_string_lossy().into_owned(),
        "permission denied".to_string(),
    );
    assert!(err.message().contains("permission denied"));

    let err = CrashReportError::WriteFailed(
        temp_dir.join("test.json").to_string_lossy().into_owned(),
        "disk full".to_string(),
    );
    assert!(err.message().contains("disk full"));
}

#[test]
fn crash_report_error_messages() {
    let p = "/r/a.json".to_string();
    assert_eq!(
        CrashReportError::DirectoryCreationFailed("/r".to_string(), "no".to_string()).message(),
        "Failed to create crash reports directory \"/r\": no"
    );
    assert_eq!(
        CrashReportError::SerializationFailed("bad".to_string()).message(),
        "Failed to serialize crash report: bad"
    );
    assert_eq!(
        CrashReportError::WriteFailed(p.clone(), "full".to_string()).message(),
        "Failed to write crash report to \"/r/a.json\": full"
    );
    assert_eq!(
        CrashReportError::ReadFailed(p.clone(), "gone".to_string()).message(),
        "Failed to read crash report from \"/r/a.json\": gone"
    );
    assert_eq!(
        CrashReportError::ParseFailed(p, "eof".to_string()).message(),
        "Failed to parse crash report from \"/r/a.json\": eof"
    );
}

#[test]
fn system_info_fallbacks() {
    let s = SystemInfo::from_readings(Some("Linux".to_string()), None, None, 16, 8, 4);
    assert_eq!(s.os_name, "Linux");
    assert_eq!(s.os_version, "Unknown");
    assert_eq!(s.hostname, "Unknown");
    assert_eq!(s.total_memory_bytes, 16);
    assert_eq!(s.available_memory_bytes, 8);
    assert_eq!(s.cpu_cores, 4);
    assert_eq!(s.app_version, APP_VERSION);
}

#[test]
fn crash_report_locations() {
    assert_eq!(
        crash_reports_dir(&Some("/home/u/.local/share".to_string())),
        "/home/u/.local/share/ArkServerManager/logs/crash_reports"
    );
    let t = chrono::DateTime::parse_from_rfc3339("2025-03-04T05:06:07.123456789Z").unwrap();
    let ts = Timestamp::new(t.timestamp(), t.timestamp_subsec_nanos());
    assert_eq!(crash_report_file_name(ts), "20250304_050607_123456789.json");
}

#[test]
fn crash_reports_listed_newest_first() {
    let e = |p: &str, m: Option<i128>| FileEntry { path: p.to_string(), file_name: None, modified: m };
    let entries = vec![e("/r/a.json", Some(1)), e("/r/b.txt", Some(9)), e("/r/c.json", Some(5)), e("/r/d", Some(7))];
    assert_eq!(list_crash_reports(&entries), vec!["/r/c.json", "/r/a.json"]);
}
