//! The system notifications the application shows.
//!
//! Showing them is done by the caller; here are their titles and texts.
use vstd::prelude::*;
use crate::text::{chars_to_string, extend_with_str};

verus! {

/// A system notification: its title and its text.
#[derive(Clone, Debug)]
pub struct Notice {
    /// The notification's title.
    pub title: String,
    /// The notification's text.
    pub body: String,
}

fn notice(title: &str, parts: &[&str]) -> (n: Notice)
    ensures
        n.title@ == title@,
        n.body@ == crate::text::concat_strs(parts@),
{
    let mut v: Vec<char> = Vec::new();
    let mut i: usize = 0;
    while i < parts.len()
        invariant
            i <= parts@.len(),
            v@ == crate::text::concat_strs(parts@.take(i as int)),
        decreases parts.len() - i,
    {
        extend_with_str(&mut v, parts[i]);
        assert(parts@.take(i + 1).drop_last() =~= parts@.take(i as int));
        i = i + 1;
    }
    assert(parts@.take(i as int) =~= parts@);
    Notice { title: String::from_str(title), body: chars_to_string(&v) }
}

/// The notification of a server that started.
pub fn notify_server_started(profile_name: &str) -> (n: Notice)
    ensures
        n.title@ == "ARK Server Started"@,
        n.body@ == "Server '"@ + profile_name@ + "' is now running."@,
{
    let n = notice("ARK Server Started", &["Server '", profile_name, "' is now running."]);
    proof {
        reveal_with_fuel(crate::text::concat_strs, 4);
    }
    assert(n.body@ =~= "Server '"@ + profile_name@ + "' is now running."@);
    n
}

/// The notification of a server that stopped.
pub fn notify_server_stopped(profile_name: &str) -> (n: Notice)
    ensures
        n.title@ == "ARK Server Stopped"@,
        n.body@ == "Server '"@ + profile_name@ + "' has been stopped."@,
{
    let n = notice("ARK Server Stopped", &["Server '", profile_name, "' has been stopped."]);
    proof {
        reveal_with_fuel(crate::text::concat_strs, 4);
    }
    assert(n.body@ =~= "Server '"@ + profile_name@ + "' has been stopped."@);
    n
}

/// The notification of a completed backup.
pub fn notify_backup_completed(profile_name: &str, backup_path: &str) -> (n: Notice)
    ensures
        n.title@ == "ARK Backup Complete"@,
        n.body@ == "Backup for '"@ + profile_name@ + "' completed successfully.\nSaved to: "@
            + backup_path@,
{
    let n = notice(
        "ARK Backup Complete",
        &["Backup for '", profile_name, "' completed successfully.\nSaved to: ", backup_path],
    );
    proof {
        reveal_with_fuel(crate::text::concat_strs, 5);
    }
    assert(n.body@ =~= "Backup for '"@ + profile_name@ + "' completed successfully.\nSaved to: "@
        + backup_path@);
    n
}

/// The notification of a crashed server.
pub fn notify_crash_detected(profile_name: &str) -> (n: Notice)
    ensures
        n.title@ == "ARK Server Crashed"@,
        n.body@ == "Server '"@ + profile_name@ + "' has crashed. A crash report has been saved."@,
{
    let n = notice(
        "ARK Server Crashed",
        &["Server '", profile_name, "' has crashed. A crash report has been saved."],
    );
    proof {
        reveal_with_fuel(crate::text::concat_strs, 4);
    }
    assert(n.body@ =~= "Server '"@ + profile_name@ + "' has crashed. A crash report has been saved."@);
    n
}

} // verus!
