//! Starting and stopping servers: the decisions around process control.
//!
//! Spawning the server process, reading its output, waiting and killing are
//! done by the caller; the functions here decide what is launched, what is
//! recorded in the server state and the console buffer, and what is reported.
use vstd::prelude::*;
use crate::clock::{format_utc, spec_format_utc, Timestamp};
use crate::paths::{app_subdir, app_subdir_of, opt_view, path_join, spec_path_join};
use crate::profile::Profile;
use crate::rcon::{copy_players, players_view, PlayerInfo};
use crate::server_discovery::{resolution_of, resolution_possible, resolve_ark_exe, DiscoveryError};
use crate::server_state::{
    decode_console_output, detected_status, get_working_directory, server_args, spec_windows_1252_decode,
    strip_ansi, ansi_stripped, working_directory, build_server_args, ConsoleBuffer, ConsoleLine,
    PlayerListUpdatedEvent, ServerHandle, ServerState, ServerStatus, StartError, StatusChangedEvent,
};
use crate::text::{
    strings_view, chars_to_string, contains, contains_chars, decimal, decimal_chars, extend_with_chars,
    extend_with_str, str_chars,
};

verus! {

/// The message for a start refused because a server already runs.
pub open spec fn already_running_message(name: Seq<char>, pid: u32) -> Seq<char> {
    "Server for profile '"@ + name + "' is already running (PID: "@ + decimal(pid as nat) + ")"@
}

/// Refuses to start a server for a profile that already has one running.
pub fn check_start_allowed(state: &ServerState, profile_name: &str) -> (r: Result<(), String>)
    requires
        state.wf(),
    ensures
        !state.handles().contains_key(profile_name@) ==> r is Ok,
        state.handles().contains_key(profile_name@) ==> (r matches Err(m) && m@
            == already_running_message(profile_name@, state.handles()[profile_name@].pid)),
{
    match state.get_handle(profile_name) {
        Some(h) => {
            let mut v: Vec<char> = Vec::new();
            extend_with_str(&mut v, "Server for profile '");
            extend_with_str(&mut v, profile_name);
            extend_with_str(&mut v, "' is already running (PID: ");
            let digits = decimal_chars(h.pid as u64);
            extend_with_chars(&mut v, &digits);
            extend_with_str(&mut v, ")");
            Err(chars_to_string(&v))
        },
        None => Ok(()),
    }
}

/// The error of a profile that could not be loaded for a start: a missing
/// file is `ProfileNotFound`; a file that could not be read or parsed is
/// `ProfileLoadFailed` with the reason.
pub fn profile_load_error(profile_name: &str, missing: bool, reason: String) -> (e: StartError)
    ensures
        missing ==> (e matches StartError::ProfileNotFound { name } && name@ == profile_name@),
        !missing ==> (e matches StartError::ProfileLoadFailed { name, reason: r } && name@ == profile_name@
            && r == reason),
{
    if missing {
        StartError::ProfileNotFound { name: String::from_str(profile_name) }
    } else {
        StartError::ProfileLoadFailed { name: String::from_str(profile_name), reason }
    }
}

/// What is launched for a profile: the executable, its arguments and the
/// directory it runs in.
#[derive(Clone, Debug)]
pub struct LaunchPlan {
    /// Path to ShooterGameServer.exe.
    pub exe_path: String,
    /// Command-line arguments.
    pub args: Vec<String>,
    /// Working directory (the parent of the executable's directory).
    pub work_dir: String,
}

/// What planning a launch gives for a resolved executable: with an
/// executable, its path, the profile's arguments and the working directory;
/// with a resolution error, its message.
pub open spec fn launch_planned(
    p: Profile,
    resolved: Result<Seq<char>, (Seq<char>, Seq<char>)>,
    r: Result<LaunchPlan, String>,
) -> bool {
    match resolved {
        Ok(exe) => r matches Ok(plan) && plan.exe_path@ == exe && strings_view(plan.args@) == server_args(p)
            && plan.work_dir@ == working_directory(exe),
        Err((guidance, missing)) => r matches Err(m) && m@ == "ARK server not found. Missing: "@ + missing
            + ". "@ + guidance,
    }
}

/// Plans the launch of a profile's server from its resolved executable (see
/// [`launch_planned`]).
pub fn plan_launch_from(profile: &Profile, resolved: Result<String, DiscoveryError>) -> (r: Result<
    LaunchPlan,
    String,
>)
    ensures
        launch_planned(*profile, resolution_of(resolved), r),
{
    match resolved {
        Ok(exe_path) => {
            let args = build_server_args(profile);
            let work_dir = get_working_directory(exe_path.as_str());
            let plan = LaunchPlan { exe_path, args, work_dir };
            assert(strings_view(plan.args@) =~= server_args(*profile));
            Ok(plan)
        },
        Err(e) => {
            let m = e.message();
            Err(m)
        },
    }
}

/// Plans the launch of a profile's server: resolves its executable (see
/// [`resolve_ark_exe`]) and plans from it (see [`plan_launch_from`]).
pub fn plan_launch(profile: &Profile) -> (r: Result<LaunchPlan, String>)
    ensures
        exists|resolved: Result<Seq<char>, (Seq<char>, Seq<char>)>|
            resolution_possible(*profile, resolved) && #[trigger] launch_planned(*profile, resolved, r),
{
    let resolved = resolve_ark_exe(profile);
    let ghost rv = resolution_of(resolved);
    let r = plan_launch_from(profile, resolved);
    assert(resolution_possible(*profile, rv) && launch_planned(*profile, rv, r));
    r
}

/// The low 16 bits of a port number (`as u16`).
pub open spec fn port_bits(port: u32) -> u16 {
    (port % 65536) as u16
}

/// Whether two handles agree field by field (strings by their text).
pub open spec fn same_handle(a: ServerHandle, b: ServerHandle) -> bool {
    &&& a.pid == b.pid
    &&& a.profile_name@ == b.profile_name@
    &&& a.started_at == b.started_at
    &&& a.ark_exe_path@ == b.ark_exe_path@
    &&& a.port == b.port
}

/// Records a server that was just spawned: builds its handle (the profile's
/// port cut to 16 bits) and enters it into the state as running.
pub fn record_started(
    state: &mut ServerState,
    profile_name: &str,
    pid: u32,
    started_at: Timestamp,
    ark_exe_path: String,
    port: u32,
) -> (h: ServerHandle)
    requires
        old(state).wf(),
    ensures
        final(state).wf(),
        h.pid == pid,
        h.profile_name@ == profile_name@,
        h.started_at == started_at,
        h.ark_exe_path@ == ark_exe_path@,
        h.port == port_bits(port),
        final(state).handles().contains_key(profile_name@),
        same_handle(final(state).handles()[profile_name@], h),
        final(state).handles().remove(profile_name@) == old(state).handles().remove(profile_name@),
        final(state).statuses() == old(state).statuses().insert(profile_name@, ServerStatus::Running),
        final(state).previous() == old(state).previous().insert(profile_name@, ServerStatus::Running),
        final(state).player_lists() == old(state).player_lists(),
{
    let port16: u16 = #[verifier::truncate] (port as u16);
    assert(port16 == (port % 65536) as u16) by (bit_vector)
        requires
            port16 == port as u16,
    ;
    let kept = ServerHandle {
        pid,
        profile_name: String::from_str(profile_name),
        started_at,
        ark_exe_path: ark_exe_path.clone(),
        port: port16,
    };
    let handle = ServerHandle {
        pid,
        profile_name: String::from_str(profile_name),
        started_at,
        ark_exe_path,
        port: port16,
    };
    state.insert(String::from_str(profile_name), handle);
    proof {
        assert(final(state).handles().remove(profile_name@) =~= old(state).handles().remove(
            profile_name@,
        ));
    }
    kept
}

/// The console line for one line of server output: the bytes decoded (see
/// [`decode_console_output`]) and stripped of ANSI escapes.
pub open spec fn console_text(bytes: Seq<u8>) -> Seq<char> {
    ansi_stripped(
        if vstd::utf8::valid_utf8(bytes) {
            vstd::utf8::decode_utf8(bytes)
        } else {
            spec_windows_1252_decode(bytes)
        },
    )
}

/// The log file entry for a console line:
/// `[{time}] [{source}] {line}` and a newline.
pub open spec fn log_entry_text(timestamp: Timestamp, source: Seq<char>, line: Seq<char>) -> Seq<char> {
    "["@ + spec_format_utc(timestamp.secs, timestamp.nanos, "%Y-%m-%d %H:%M:%S%.3f"@) + "] ["@
        + source + "] "@ + line + "\n"@
}

/// Builds the log file entry for a console line (see [`log_entry_text`]).
pub fn log_entry(timestamp: Timestamp, source: &str, line: &str) -> (s: String)
    requires
        timestamp.wf(),
    ensures
        s@ == log_entry_text(timestamp, source@, line@),
{
    let pattern = "%Y-%m-%d %H:%M:%S%.3f";
    proof {
        reveal_strlit("%Y-%m-%d %H:%M:%S%.3f");
    }
    let time = format_utc(timestamp, pattern);
    let mut v: Vec<char> = Vec::new();
    extend_with_str(&mut v, "[");
    extend_with_str(&mut v, time.as_str());
    extend_with_str(&mut v, "] [");
    extend_with_str(&mut v, source);
    extend_with_str(&mut v, "] ");
    extend_with_str(&mut v, line);
    extend_with_str(&mut v, "\n");
    chars_to_string(&v)
}

/// Takes in one line read from a server's output stream (`source` is
/// `stdout` or `stderr`): builds its console line, adds it to the profile's
/// console buffer, and returns it with its log file entry.
pub fn record_console_output(
    buffer: &mut ConsoleBuffer,
    profile_name: &str,
    bytes: &[u8],
    timestamp: Timestamp,
    source: &str,
) -> (r: (ConsoleLine, String))
    requires
        old(buffer).wf(),
        timestamp.wf(),
    ensures
        final(buffer).wf(),
        r.0.profile_name@ == profile_name@,
        r.0.timestamp == timestamp,
        r.0.line@ == console_text(bytes@),
        r.0.source@ == source@,
        final(buffer).lines_of() == old(buffer).lines_of().insert(
            profile_name@,
            crate::server_state::rolled(old(buffer).lines_for(profile_name@), r.0),
        ),
        r.1@ == log_entry_text(timestamp, source@, console_text(bytes@)),
{
    let raw = decode_console_output(bytes);
    let clean = strip_ansi(raw.as_str());
    let line = ConsoleLine {
        profile_name: String::from_str(profile_name),
        timestamp,
        line: clean,
        source: String::from_str(source),
    };
    let entry = log_entry(timestamp, source, line.line.as_str());
    buffer.push_line(profile_name, line.duplicate());
    (line, entry)
}

/// The directory holding the per-server session logs under a base data
/// directory: `{app dir}/logs`.
pub open spec fn server_logs_dir(base: Option<Seq<char>>) -> Seq<char> {
    app_subdir(base, "logs"@)
}

/// The log file of a server session: `{logs}/{profile}/{time}.log`, the time
/// as `%Y-%m-%d_%H-%M-%S`.
pub open spec fn log_file_path(logs: Seq<char>, profile_name: Seq<char>, started_at: Timestamp) -> Seq<char> {
    spec_path_join(
        spec_path_join(logs, profile_name),
        spec_format_utc(started_at.secs, started_at.nanos, "%Y-%m-%d_%H-%M-%S"@) + ".log"@,
    )
}

/// The session log file of a server (see [`log_file_path`]) under the logs
/// directory of a base data directory.
pub fn get_log_file_path(base: &Option<String>, profile_name: &str, started_at: Timestamp) -> (p: String)
    requires
        started_at.wf(),
    ensures
        p@ == log_file_path(server_logs_dir(opt_view(*base)), profile_name@, started_at),
{
    let logs = app_subdir_of(base, "logs");
    let dir = path_join(logs.as_str(), profile_name);
    let pattern = "%Y-%m-%d_%H-%M-%S";
    proof {
        reveal_strlit("%Y-%m-%d_%H-%M-%S");
    }
    let time = format_utc(started_at, pattern);
    let mut v: Vec<char> = Vec::new();
    extend_with_str(&mut v, time.as_str());
    extend_with_str(&mut v, ".log");
    let file = chars_to_string(&v);
    path_join(dir.as_str(), file.as_str())
}

/// The message for a stop of a profile that has no server running.
pub open spec fn not_running_message(name: Seq<char>) -> Seq<char> {
    "No server running for profile '"@ + name + "'"@
}

/// Begins stopping a profile's server: returns a copy of its handle and
/// marks it `Stopping`; a profile without a running server is an error.
pub fn begin_stop(state: &mut ServerState, profile_name: &str) -> (r: Result<ServerHandle, String>)
    requires
        old(state).wf(),
    ensures
        final(state).wf(),
        !old(state).handles().contains_key(profile_name@) ==> {
            &&& r matches Err(m) && m@ == not_running_message(profile_name@)
            &&& final(state).handles() == old(state).handles()
            &&& final(state).statuses() == old(state).statuses()
            &&& final(state).previous() == old(state).previous()
        },
        old(state).handles().contains_key(profile_name@) ==> {
            &&& r matches Ok(h) && h.pid == old(state).handles()[profile_name@].pid
                && h.port == old(state).handles()[profile_name@].port
                && h.started_at == old(state).handles()[profile_name@].started_at
                && h.profile_name@ == old(state).handles()[profile_name@].profile_name@
                && h.ark_exe_path@ == old(state).handles()[profile_name@].ark_exe_path@
            &&& final(state).handles() == old(state).handles()
            &&& final(state).statuses() == old(state).statuses().insert(
                profile_name@,
                ServerStatus::Stopping,
            )
            &&& final(state).previous() == if old(state).statuses()[profile_name@]
                == ServerStatus::Stopping {
                old(state).previous()
            } else {
                old(state).previous().insert(profile_name@, old(state).statuses()[profile_name@])
            }
        },
        final(state).player_lists() == old(state).player_lists(),
{
    let handle = match state.get_handle(profile_name) {
        Some(h) => ServerHandle {
            pid: h.pid,
            profile_name: h.profile_name.clone(),
            started_at: h.started_at,
            ark_exe_path: h.ark_exe_path.clone(),
            port: h.port,
        },
        None => {
            let mut v: Vec<char> = Vec::new();
            extend_with_str(&mut v, "No server running for profile '");
            extend_with_str(&mut v, profile_name);
            extend_with_str(&mut v, "'");
            return Err(chars_to_string(&v));
        },
    };
    proof {
        state.lemma_state_invariant();
    }
    state.set_status(profile_name, ServerStatus::Stopping);
    proof {
        if old(state).statuses()[profile_name@] == ServerStatus::Stopping {
            assert(old(state).statuses().insert(profile_name@, ServerStatus::Stopping)
                =~= old(state).statuses());
        }
    }
    Ok(handle)
}

/// The arguments of `taskkill` asking a process to end: `/PID {pid}`.
pub fn graceful_kill_args(pid: u32) -> (a: Vec<String>)
    ensures
        a@.len() == 2,
        strings_view(a@) == seq!["/PID"@, decimal(pid as nat)],
{
    let mut a: Vec<String> = Vec::new();
    a.push(String::from_str("/PID"));
    let digits = decimal_chars(pid as u64);
    a.push(chars_to_string(&digits));
    assert(strings_view(a@) =~= seq!["/PID"@, decimal(pid as nat)]);
    a
}

/// The arguments of `taskkill` forcing a process to end: `/PID {pid} /F`.
pub fn force_kill_args(pid: u32) -> (a: Vec<String>)
    ensures
        a@.len() == 3,
        strings_view(a@) == seq!["/PID"@, decimal(pid as nat), "/F"@],
{
    let mut a = graceful_kill_args(pid);
    let ghost before = a@;
    a.push(String::from_str("/F"));
    assert(a@ == before.push(a@[2]));
    assert(strings_view(a@)[0] == strings_view(before)[0]);
    assert(strings_view(a@)[1] == strings_view(before)[1]);
    assert(strings_view(a@) =~= seq!["/PID"@, decimal(pid as nat), "/F"@]);
    a
}

/// The PowerShell command that lists a process if it still exists.
pub fn process_query_command(pid: u32) -> (s: String)
    ensures
        s@ == "Get-Process -Id "@ + decimal(pid as nat) + " -ErrorAction SilentlyContinue"@,
{
    let mut v: Vec<char> = Vec::new();
    extend_with_str(&mut v, "Get-Process -Id ");
    let digits = decimal_chars(pid as u64);
    extend_with_chars(&mut v, &digits);
    extend_with_str(&mut v, " -ErrorAction SilentlyContinue");
    chars_to_string(&v)
}

/// Whether a server is taken to be still running after the graceful stop:
/// the process query printed its PID, or the query gave no output (it failed
/// or timed out).
pub fn still_running_after_stop(query_output: &Option<String>, pid: u32) -> (r: bool)
    ensures
        r == match query_output {
            Some(out) => contains(out@, decimal(pid as nat)),
            None => true,
        },
{
    match query_output {
        Some(out) => {
            let hay = str_chars(out.as_str());
            let needle = decimal_chars(pid as u64);
            contains_chars(&hay, &needle)
        },
        None => true,
    }
}

/// Finishes stopping a profile's server: forgets it in the state and drops
/// its console buffer.
pub fn finish_stop(state: &mut ServerState, buffer: &mut ConsoleBuffer, profile_name: &str)
    requires
        old(state).wf(),
        old(buffer).wf(),
    ensures
        final(state).wf(),
        final(buffer).wf(),
        final(state).handles() == old(state).handles().remove(profile_name@),
        final(state).statuses() == old(state).statuses().remove(profile_name@),
        final(state).previous() == old(state).previous().remove(profile_name@),
        final(state).player_lists() == old(state).player_lists(),
        final(buffer).lines_of() == old(buffer).lines_of().remove(profile_name@),
{
    state.remove(profile_name);
    buffer.remove(profile_name);
}

/// The port probed to detect a profile's status: its server's port, or 0
/// when it has no running server.
pub fn status_probe_port(state: &ServerState, profile_name: &str) -> (p: u16)
    requires
        state.wf(),
    ensures
        p == (if state.handles().contains_key(profile_name@) {
            state.handles()[profile_name@].port
        } else {
            0u16
        }),
{
    match state.get_handle(profile_name) {
        Some(h) => h.port,
        None => 0,
    }
}

/// One poll of a profile's status, from what was observed of it: detects the
/// status (see [`detected_status`]); when it differs from the current one
/// (`Stopped` when none is stored) it is recorded and the change is reported.
pub fn poll_status(state: &mut ServerState, profile_name: &str, process_alive: bool, port_open: bool) -> (r: Option<StatusChangedEvent>)
    requires
        old(state).wf(),
    ensures
        final(state).wf(),
        final(state).handles() == old(state).handles(),
        final(state).player_lists() == old(state).player_lists(),
        ({
            let new_status = detected_status(
                old(state).handles().contains_key(profile_name@),
                process_alive,
                port_open,
            );
            let cur = old(state).status_of(profile_name@);
            &&& new_status == cur ==> {
                &&& r is None
                &&& final(state).statuses() == old(state).statuses()
                &&& final(state).previous() == old(state).previous()
            }
            &&& new_status != cur ==> {
                &&& r matches Some(e) && e.profile_name@ == profile_name@ && e.old_status == cur
                    && e.new_status == new_status
                &&& final(state).statuses() == old(state).statuses().insert(profile_name@, new_status)
                &&& final(state).previous() == (if old(state).statuses().contains_key(profile_name@) {
                    old(state).previous().insert(profile_name@, cur)
                } else {
                    old(state).previous()
                })
            }
        }),
{
    let (new_status, changed) = state.detect_status(profile_name, process_alive, port_open);
    if !changed {
        proof {
            if old(state).statuses().contains_key(profile_name@) {
            } else {
                assert(new_status == ServerStatus::Stopped);
            }
        }
        return None;
    }
    match state.set_status(profile_name, new_status) {
        Some(old_status) => Some(
            StatusChangedEvent {
                profile_name: String::from_str(profile_name),
                old_status,
                new_status,
            },
        ),
        None => None,
    }
}

/// Advances the player-poll counter (wrapping) and says whether a player
/// list poll is due: every fifth tick.
pub fn next_player_poll(counter: u32) -> (r: (u32, bool))
    ensures
        r.0 == (if counter == u32::MAX { 0 } else { counter + 1 }),
        r.1 == (r.0 % 5 == 0),
{
    let next = counter.wrapping_add(1);
    (next, next % 5 == 0)
}

/// The RCON port of a profile: its query port cut to 16 bits, plus one,
/// saturating at 65535.
pub open spec fn rcon_port(port: u32) -> u16 {
    if port_bits(port) == u16::MAX {
        u16::MAX
    } else {
        (port_bits(port) + 1) as u16
    }
}

/// Where the player list of a profile is polled: its RCON port and the admin
/// password (empty when none is set).
pub fn rcon_target(profile: &Profile) -> (r: (u16, String))
    ensures
        r.0 == rcon_port(profile.port),
        r.1@ == match profile.admin_password {
            Some(p) => p@,
            None => Seq::<char>::empty(),
        },
{
    let port: u32 = profile.port;
    let port16: u16 = #[verifier::truncate] (port as u16);
    assert(port16 == (port % 65536) as u16) by (bit_vector)
        requires
            port16 == port as u16,
    ;
    let rcon = port16.saturating_add(1);
    let password = match &profile.admin_password {
        Some(p) => p.clone(),
        None => String::new(),
    };
    (rcon, password)
}

/// Records a polled player list and returns the event announcing it.
pub fn record_player_list(state: &mut ServerState, profile_name: &str, players: Vec<PlayerInfo>) -> (e: PlayerListUpdatedEvent)
    requires
        old(state).wf(),
    ensures
        final(state).wf(),
        final(state).player_lists() == old(state).player_lists().insert(profile_name@, players),
        final(state).handles() == old(state).handles(),
        final(state).statuses() == old(state).statuses(),
        final(state).previous() == old(state).previous(),
        e.profile_name@ == profile_name@,
        players_view(e.players@) == players_view(players@),
{
    let copy = copy_players(&players);
    state.set_player_list(profile_name, players);
    PlayerListUpdatedEvent { profile_name: String::from_str(profile_name), players: copy }
}

/// Starting a server for a profile that has no recorded status and then
/// stopping it leaves the state as it was: the same handles, statuses and
/// previous statuses. The hypotheses are what [`record_started`],
/// [`begin_stop`] and [`finish_stop`] promise of the states they leave.
pub proof fn law_start_then_stop(
    s0: ServerState,
    s1: ServerState,
    s2: ServerState,
    s3: ServerState,
    name: Seq<char>,
)
    requires
        s0.wf(),
        !s0.statuses().contains_key(name),
        s1.handles().contains_key(name),
        s1.handles().remove(name) == s0.handles().remove(name),
        s1.statuses() == s0.statuses().insert(name, ServerStatus::Running),
        s1.previous() == s0.previous().insert(name, ServerStatus::Running),
        s2.handles() == s1.handles(),
        s2.statuses() == s1.statuses().insert(name, ServerStatus::Stopping),
        s2.previous() == if s1.statuses()[name] == ServerStatus::Stopping {
            s1.previous()
        } else {
            s1.previous().insert(name, s1.statuses()[name])
        },
        s3.handles() == s2.handles().remove(name),
        s3.statuses() == s2.statuses().remove(name),
        s3.previous() == s2.previous().remove(name),
    ensures
        s3.handles() == s0.handles(),
        s3.statuses() == s0.statuses(),
        s3.previous() == s0.previous(),
{
    s0.lemma_state_invariant();
    assert(!s0.handles().contains_key(name));
    assert(!s0.previous().contains_key(name));
    assert(s0.handles().remove(name) =~= s0.handles());
    assert(s3.handles() =~= s0.handles());
    assert(s3.statuses() =~= s0.statuses());
    assert(s3.previous() =~= s0.previous());
}

} // verus!
