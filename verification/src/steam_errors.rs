//! SteamCMD error types with user-friendly messages.
use vstd::prelude::*;
use crate::text::{chars_to_string, decimal, decimal_chars, extend_with_chars, extend_with_str, signed_decimal, signed_decimal_chars};

verus! {

/// SteamCMD-specific error variants.
#[derive(Clone, Debug)]
pub enum SteamCmdError {
    /// SteamCMD binary not found.
    NotFound,
    /// Installation failed.
    InstallFailed(String),
    /// Update check failed.
    UpdateCheckFailed(String),
    /// Server is currently running, cannot update.
    ServerRunning,
    /// Validation failed after install/update.
    ValidationFailed(String),
    /// Download failed after max retries.
    DownloadFailed(String),
    /// Path traversal attempt detected.
    PathTraversal,
    /// Timeout waiting for steamcmd.
    Timeout(u64),
    /// SteamCMD exited with an error.
    ExitCode(i32),
    /// IO error.
    IoError(String),
    /// Network error during download.
    NetworkError(String),
}

/// The user-facing message of each [`SteamCmdError`].
pub open spec fn steam_error_message(e: SteamCmdError) -> Seq<char> {
    match e {
        SteamCmdError::NotFound => "SteamCMD not found. Please install SteamCMD first."@,
        SteamCmdError::InstallFailed(msg) => "SteamCMD installation failed: "@ + msg@
            + ". Check your internet connection and try again."@,
        SteamCmdError::UpdateCheckFailed(msg) => "Failed to check for updates: "@ + msg@
            + ". SteamCMD may be corrupted."@,
        SteamCmdError::ServerRunning => "Cannot update server while it is running. Stop the server first."@,
        SteamCmdError::ValidationFailed(msg) => "File validation failed: "@ + msg@
            + ". Some files may be corrupted."@,
        SteamCmdError::DownloadFailed(msg) => "Download failed after multiple attempts: "@ + msg@,
        SteamCmdError::PathTraversal => "Invalid install path. Path traversal is not allowed."@,
        SteamCmdError::Timeout(secs) => "SteamCMD timed out after "@ + decimal(secs as nat)
            + " seconds."@,
        SteamCmdError::ExitCode(code) => "SteamCMD exited with error code: "@ + signed_decimal(
            code as int,
        ),
        SteamCmdError::IoError(msg) => "IO error: "@ + msg@,
        SteamCmdError::NetworkError(msg) => "Network error: "@ + msg@
            + ". Check your internet connection."@,
    }
}

impl SteamCmdError {
    /// The user-facing message of this error.
    pub fn message(&self) -> (s: String)
        ensures
            s@ == steam_error_message(*self),
    {
        let mut v: Vec<char> = Vec::new();
        match self {
            SteamCmdError::NotFound => {
                extend_with_str(&mut v, "SteamCMD not found. Please install SteamCMD first.");
            },
            SteamCmdError::InstallFailed(msg) => {
                extend_with_str(&mut v, "SteamCMD installation failed: ");
                extend_with_str(&mut v, msg.as_str());
                extend_with_str(&mut v, ". Check your internet connection and try again.");
            },
            SteamCmdError::UpdateCheckFailed(msg) => {
                extend_with_str(&mut v, "Failed to check for updates: ");
                extend_with_str(&mut v, msg.as_str());
                extend_with_str(&mut v, ". SteamCMD may be corrupted.");
            },
            SteamCmdError::ServerRunning => {
                extend_with_str(
                    &mut v,
                    "Cannot update server while it is running. Stop the server first.",
                );
            },
            SteamCmdError::ValidationFailed(msg) => {
                extend_with_str(&mut v, "File validation failed: ");
                extend_with_str(&mut v, msg.as_str());
                extend_with_str(&mut v, ". Some files may be corrupted.");
            },
            SteamCmdError::DownloadFailed(msg) => {
                extend_with_str(&mut v, "Download failed after multiple attempts: ");
                extend_with_str(&mut v, msg.as_str());
            },
            SteamCmdError::PathTraversal => {
                extend_with_str(&mut v, "Invalid install path. Path traversal is not allowed.");
            },
            SteamCmdError::Timeout(secs) => {
                extend_with_str(&mut v, "SteamCMD timed out after ");
                let digits = decimal_chars(*secs);
                extend_with_chars(&mut v, &digits);
                extend_with_str(&mut v, " seconds.");
            },
            SteamCmdError::ExitCode(code) => {
                extend_with_str(&mut v, "SteamCMD exited with error code: ");
                let digits = signed_decimal_chars(*code as i64);
                extend_with_chars(&mut v, &digits);
            },
            SteamCmdError::IoError(msg) => {
                extend_with_str(&mut v, "IO error: ");
                extend_with_str(&mut v, msg.as_str());
            },
            SteamCmdError::NetworkError(msg) => {
                extend_with_str(&mut v, "Network error: ");
                extend_with_str(&mut v, msg.as_str());
                extend_with_str(&mut v, ". Check your internet connection.");
            },
        }
        chars_to_string(&v)
    }
}

/// Interprets how a SteamCMD process ended: `success` is whether it exited
/// successfully and `code` its exit code, absent when a signal ended it.
/// A successful exit is no error; otherwise the exit code, or `-1` for a
/// process ended by a signal.
pub fn parse_exit_status(success: bool, code: Option<i32>) -> (e: Option<SteamCmdError>)
    ensures
        success ==> e is None,
        !success ==> e == Some(
            SteamCmdError::ExitCode(
                match code {
                    Some(c) => c,
                    None => -1i32,
                },
            ),
        ),
{
    if success {
        None
    } else {
        match code {
            Some(c) => Some(SteamCmdError::ExitCode(c)),
            None => Some(SteamCmdError::ExitCode(-1)),
        }
    }
}

} // verus!
