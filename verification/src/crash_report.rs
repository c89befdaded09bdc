//! Crash reports: what they hold, where they are stored, how their files
//! are named and listed, and the errors of saving and loading them.
//!
//! Reading system figures, serializing to JSON and the file operations are
//! done by the caller.
use vstd::prelude::*;
use crate::backup::{is_time_order, paths_by_order_all, paths_in_order, time_order, times_of, FileEntry};
use crate::clock::{format_utc, spec_format_utc, Timestamp};
use crate::paths::{
    app_subdir, app_subdir_of, opt_view, path_debug, path_extension, path_join, spec_path_debug,
    spec_path_extension, spec_path_join,
};
use crate::text::{chars_to_string, extend_with_str, str_eq, strings_view};

verus! {

/// The application version recorded in crash reports.
pub const APP_VERSION: &'static str = "0.1.0";

/// System information captured at crash time.
#[derive(Clone, Debug)]
pub struct SystemInfo {
    /// OS name (e.g., "Windows", "Linux").
    pub os_name: String,
    /// OS version string.
    pub os_version: String,
    /// Hostname of the machine.
    pub hostname: String,
    /// Total physical memory in bytes.
    pub total_memory_bytes: u64,
    /// Available physical memory in bytes.
    pub available_memory_bytes: u64,
    /// Number of CPU cores.
    pub cpu_cores: usize,
    /// Application version.
    pub app_version: String,
}

/// A text read from the system, or `Unknown` when it could not be read.
pub open spec fn known_or_unknown(s: Option<Seq<char>>) -> Seq<char> {
    match s {
        Some(t) => t,
        None => "Unknown"@,
    }
}

fn or_unknown(s: Option<String>) -> (r: String)
    ensures
        r@ == known_or_unknown(opt_view(s)),
{
    match s {
        Some(t) => t,
        None => String::from_str("Unknown"),
    }
}

impl SystemInfo {
    /// System information from what was read of the system: each name that
    /// could not be read is `Unknown`; the version is the application's.
    pub fn from_readings(
        os_name: Option<String>,
        os_version: Option<String>,
        hostname: Option<String>,
        total_memory_bytes: u64,
        available_memory_bytes: u64,
        cpu_cores: usize,
    ) -> (s: SystemInfo)
        ensures
            s.os_name@ == known_or_unknown(opt_view(os_name)),
            s.os_version@ == known_or_unknown(opt_view(os_version)),
            s.hostname@ == known_or_unknown(opt_view(hostname)),
            s.total_memory_bytes == total_memory_bytes,
            s.available_memory_bytes == available_memory_bytes,
            s.cpu_cores == cpu_cores,
            s.app_version@ == APP_VERSION@,
    {
        SystemInfo {
            os_name: or_unknown(os_name),
            os_version: or_unknown(os_version),
            hostname: or_unknown(hostname),
            total_memory_bytes,
            available_memory_bytes,
            cpu_cores,
            app_version: String::from_str(APP_VERSION),
        }
    }
}

/// A crash report containing details about an unexpected server exit.
#[derive(Clone, Debug)]
pub struct CrashReport {
    /// Timestamp when the crash was detected.
    pub timestamp: Timestamp,
    /// Name of the profile that crashed.
    pub profile_name: String,
    /// Exit code of the crashed process (if available).
    pub exit_code: Option<i32>,
    /// Signal that caused the crash (if killed by signal).
    pub signal: Option<i32>,
    /// Last 50 lines of console output before the crash.
    pub last_log_lines: Vec<String>,
    /// System information at the time of crash.
    pub system_info: SystemInfo,
}

/// The crash reports directory under a local data directory:
/// `{app dir}/logs/crash_reports`.
pub open spec fn crash_reports_dir_in(local: Option<Seq<char>>) -> Seq<char> {
    spec_path_join(app_subdir(local, "logs"@), "crash_reports"@)
}

/// Returns the crash reports directory path for a local data directory (see
/// [`crash_reports_dir_in`]).
pub fn crash_reports_dir(local: &Option<String>) -> (d: String)
    ensures
        d@ == crash_reports_dir_in(opt_view(*local)),
{
    let logs = app_subdir_of(local, "logs");
    path_join(logs.as_str(), "crash_reports")
}

/// The file of a crash report: `{time}.json`, the time in UTC as
/// `%Y%m%d_%H%M%S_%f`.
pub open spec fn crash_report_file(t: Timestamp) -> Seq<char> {
    spec_format_utc(t.secs, t.nanos, "%Y%m%d_%H%M%S_%f"@) + ".json"@
}

/// The file name a crash report is saved under (see [`crash_report_file`]).
pub fn crash_report_file_name(timestamp: Timestamp) -> (s: String)
    requires
        timestamp.wf(),
    ensures
        s@ == crash_report_file(timestamp),
{
    let pattern = "%Y%m%d_%H%M%S_%f";
    proof {
        reveal_strlit("%Y%m%d_%H%M%S_%f");
    }
    let time = format_utc(timestamp, pattern);
    let mut v: Vec<char> = Vec::new();
    extend_with_str(&mut v, time.as_str());
    extend_with_str(&mut v, ".json");
    chars_to_string(&v)
}

/// Whether a file is a crash report: its extension is `json`.
pub open spec fn is_report_file(e: FileEntry) -> bool {
    spec_path_extension(e.path@) == Some("json"@)
}

/// The crash report files among the entries, in their order.
pub open spec fn reports_among(entries: Seq<FileEntry>) -> Seq<FileEntry> {
    entries.filter(|e: FileEntry| is_report_file(e))
}

/// Lists the crash reports among the entries of the crash reports
/// directory, newest first (entries with the same time keeping their order).
pub fn list_crash_reports(entries: &Vec<FileEntry>) -> (r: Vec<String>)
    ensures
        exists|order: Seq<usize>|
            is_time_order(times_of(reports_among(entries@)), true, order) && strings_view(r@)
                == paths_in_order(reports_among(entries@), order),
{
    let mut reports: Vec<FileEntry> = Vec::new();
    let mut i: usize = 0;
    while i < entries.len()
        invariant
            i <= entries@.len(),
            reports@ == reports_among(entries@.take(i as int)),
        decreases entries.len() - i,
    {
        let ghost pre = entries@.take(i as int);
        proof {
            reveal(Seq::filter);
            assert(entries@.take(i + 1).drop_last() =~= pre);
            assert(entries@.take(i + 1).last() == entries@[i as int]);
        }
        let is_json = match path_extension(entries[i].path.as_str()) {
            Some(ext) => str_eq(ext.as_str(), "json"),
            None => false,
        };
        if is_json {
            reports.push(entries[i].duplicate());
        }
        i = i + 1;
    }
    assert(entries@.take(i as int) =~= entries@);
    paths_by_order_all(&reports)
}

/// Errors that can occur when saving or loading crash reports.
#[derive(Clone, Debug)]
pub enum CrashReportError {
    /// Failed to create the crash reports directory.
    DirectoryCreationFailed(String, String),
    /// Failed to serialize the crash report to JSON.
    SerializationFailed(String),
    /// Failed to write the crash report to a file.
    WriteFailed(String, String),
    /// Failed to read the crash report from a file.
    ReadFailed(String, String),
    /// Failed to parse the crash report JSON.
    ParseFailed(String, String),
}

/// The user-facing message of each [`CrashReportError`]; paths are shown as
/// `{:?}` shows them.
pub open spec fn crash_error_message(e: CrashReportError) -> Seq<char> {
    match e {
        CrashReportError::DirectoryCreationFailed(p, m) => "Failed to create crash reports directory "@
            + spec_path_debug(p@) + ": "@ + m@,
        CrashReportError::SerializationFailed(m) => "Failed to serialize crash report: "@ + m@,
        CrashReportError::WriteFailed(p, m) => "Failed to write crash report to "@ + spec_path_debug(p@)
            + ": "@ + m@,
        CrashReportError::ReadFailed(p, m) => "Failed to read crash report from "@ + spec_path_debug(p@)
            + ": "@ + m@,
        CrashReportError::ParseFailed(p, m) => "Failed to parse crash report from "@ + spec_path_debug(p@)
            + ": "@ + m@,
    }
}

impl CrashReportError {
    /// The user-facing message of this error.
    pub fn message(&self) -> (s: String)
        ensures
            s@ == crash_error_message(*self),
    {
        let mut v: Vec<char> = Vec::new();
        match self {
            CrashReportError::DirectoryCreationFailed(p, m) => {
                extend_with_str(&mut v, "Failed to create crash reports directory ");
                let shown = path_debug(p.as_str());
                extend_with_str(&mut v, shown.as_str());
                extend_with_str(&mut v, ": ");
                extend_with_str(&mut v, m.as_str());
            },
            CrashReportError::SerializationFailed(m) => {
                extend_with_str(&mut v, "Failed to serialize crash report: ");
                extend_with_str(&mut v, m.as_str());
            },
            CrashReportError::WriteFailed(p, m) => {
                extend_with_str(&mut v, "Failed to write crash report to ");
                let shown = path_debug(p.as_str());
                extend_with_str(&mut v, shown.as_str());
                extend_with_str(&mut v, ": ");
                extend_with_str(&mut v, m.as_str());
            },
            CrashReportError::ReadFailed(p, m) => {
                extend_with_str(&mut v, "Failed to read crash report from ");
                let shown = path_debug(p.as_str());
                extend_with_str(&mut v, shown.as_str());
                extend_with_str(&mut v, ": ");
                extend_with_str(&mut v, m.as_str());
            },
            CrashReportError::ParseFailed(p, m) => {
                extend_with_str(&mut v, "Failed to parse crash report from ");
                let shown = path_debug(p.as_str());
                extend_with_str(&mut v, shown.as_str());
                extend_with_str(&mut v, ": ");
                extend_with_str(&mut v, m.as_str());
            },
        }
        chars_to_string(&v)
    }
}

} // verus!
