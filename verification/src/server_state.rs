//! Server state management for tracking running ARK server processes.
//!
//! Tracks, per profile name, the handle of a running server, its current and
//! previous status and the last player list; keeps a rolling console buffer;
//! and computes the server's command line.
use vstd::prelude::*;
use crate::clock::Timestamp;
use crate::name_map::NameMap;
use crate::paths::{path_parent, spec_path_parent};
use crate::profile::Profile;
use crate::rcon::PlayerInfo;
use crate::text::{
    chars_to_string, contains, decimal, decimal_chars, extend_with_chars, extend_with_str,
    find_chars, str_chars, str_eq,
};
use crate::regex_text::{regex_replace_all, spec_regex_replace_all};

verus! {

/// Handle to a running ARK server process.
#[derive(Clone, Debug, PartialEq)]
pub struct ServerHandle {
    /// Process ID of the running server.
    pub pid: u32,
    /// Name of the profile that started this server.
    pub profile_name: String,
    /// When the server was started.
    pub started_at: Timestamp,
    /// Path to the ShooterGameServer.exe being used.
    pub ark_exe_path: String,
    /// Query port for the server (used for status detection).
    pub port: u16,
}

/// Current status of a server.
#[derive(Clone, Copy, Debug, PartialEq, Eq, Structural)]
pub enum ServerStatus {
    /// Server is not running.
    Stopped,
    /// Server is in the process of starting.
    Starting,
    /// Server is running normally.
    Running,
    /// Server is in the process of stopping.
    Stopping,
    /// Server has crashed or exited unexpectedly.
    Crashed,
}

/// Errors that can occur when starting a server.
#[derive(Clone, Debug)]
pub enum StartError {
    /// Profile not found.
    ProfileNotFound { name: String },
    /// Failed to load profile JSON.
    ProfileLoadFailed { name: String, reason: String },
    /// Server installation not found or invalid.
    InstallNotFound { guidance: String },
    /// Failed to spawn the server process.
    SpawnFailed { reason: String },
    /// Server for this profile is already running.
    AlreadyRunning { name: String, pid: u32 },
}

/// The user-facing message of each [`StartError`].
pub open spec fn start_error_message(e: StartError) -> Seq<char> {
    match e {
        StartError::ProfileNotFound { name } => "Profile '"@ + name@ + "' not found"@,
        StartError::ProfileLoadFailed { name, reason } => "Failed to load profile '"@ + name@
            + "': "@ + reason@,
        StartError::InstallNotFound { guidance } => "Server installation not found. "@ + guidance@,
        StartError::SpawnFailed { reason } => "Failed to spawn server process: "@ + reason@,
        StartError::AlreadyRunning { name, pid } => "Server for profile '"@ + name@
            + "' is already running (PID: "@ + decimal(pid as nat) + ")"@,
    }
}

impl StartError {
    /// The user-facing message of this error.
    pub fn message(&self) -> (s: String)
        ensures
            s@ == start_error_message(*self),
    {
        let mut v: Vec<char> = Vec::new();
        match self {
            StartError::ProfileNotFound { name } => {
                extend_with_str(&mut v, "Profile '");
                extend_with_str(&mut v, name.as_str());
                extend_with_str(&mut v, "' not found");
            },
            StartError::ProfileLoadFailed { name, reason } => {
                extend_with_str(&mut v, "Failed to load profile '");
                extend_with_str(&mut v, name.as_str());
                extend_with_str(&mut v, "': ");
                extend_with_str(&mut v, reason.as_str());
            },
            StartError::InstallNotFound { guidance } => {
                extend_with_str(&mut v, "Server installation not found. ");
                extend_with_str(&mut v, guidance.as_str());
            },
            StartError::SpawnFailed { reason } => {
                extend_with_str(&mut v, "Failed to spawn server process: ");
                extend_with_str(&mut v, reason.as_str());
            },
            StartError::AlreadyRunning { name, pid } => {
                extend_with_str(&mut v, "Server for profile '");
                extend_with_str(&mut v, name.as_str());
                extend_with_str(&mut v, "' is already running (PID: ");
                let digits = decimal_chars(*pid as u64);
                extend_with_chars(&mut v, &digits);
                extend_with_str(&mut v, ")");
            },
        }
        chars_to_string(&v)
    }
}

/// Errors that can occur when stopping a server.
#[derive(Clone, Debug)]
pub enum StopError {
    /// Server for this profile is not running.
    NotRunning { name: String },
    /// Failed to send graceful stop command.
    GracefulStopFailed { name: String, reason: String },
    /// Failed to kill the server process.
    KillFailed { name: String, reason: String },
    /// Timeout while waiting for server to stop.
    Timeout { name: String },
}

/// The user-facing message of each [`StopError`].
pub open spec fn stop_error_message(e: StopError) -> Seq<char> {
    match e {
        StopError::NotRunning { name } => "No server running for profile '"@ + name@ + "'"@,
        StopError::GracefulStopFailed { name, reason } => "Failed to gracefully stop server '"@
            + name@ + "': "@ + reason@,
        StopError::KillFailed { name, reason } => "Failed to kill server '"@ + name@ + "': "@
            + reason@,
        StopError::Timeout { name } => "Timeout waiting for server '"@ + name@ + "' to stop"@,
    }
}

impl StopError {
    /// The user-facing message of this error.
    pub fn message(&self) -> (s: String)
        ensures
            s@ == stop_error_message(*self),
    {
        let mut v: Vec<char> = Vec::new();
        match self {
            StopError::NotRunning { name } => {
                extend_with_str(&mut v, "No server running for profile '");
                extend_with_str(&mut v, name.as_str());
                extend_with_str(&mut v, "'");
            },
            StopError::GracefulStopFailed { name, reason } => {
                extend_with_str(&mut v, "Failed to gracefully stop server '");
                extend_with_str(&mut v, name.as_str());
                extend_with_str(&mut v, "': ");
                extend_with_str(&mut v, reason.as_str());
            },
            StopError::KillFailed { name, reason } => {
                extend_with_str(&mut v, "Failed to kill server '");
                extend_with_str(&mut v, name.as_str());
                extend_with_str(&mut v, "': ");
                extend_with_str(&mut v, reason.as_str());
            },
            StopError::Timeout { name } => {
                extend_with_str(&mut v, "Timeout waiting for server '");
                extend_with_str(&mut v, name.as_str());
                extend_with_str(&mut v, "' to stop");
            },
        }
        chars_to_string(&v)
    }
}

// ---------------------------------------------------------------------------
// Console output
// ---------------------------------------------------------------------------

/// A single line of console output from an ARK server.
#[derive(Clone, Debug)]
pub struct ConsoleLine {
    /// Name of the profile this line belongs to.
    pub profile_name: String,
    /// Timestamp when this line was received.
    pub timestamp: Timestamp,
    /// The actual text content of the line.
    pub line: String,
    /// Source of the output: "stdout" or "stderr".
    pub source: String,
}

impl ConsoleLine {
    /// A copy of this line.
    pub fn duplicate(&self) -> (r: ConsoleLine)
        ensures
            r == *self,
    {
        ConsoleLine {
            profile_name: self.profile_name.clone(),
            timestamp: self.timestamp,
            line: self.line.clone(),
            source: self.source.clone(),
        }
    }
}

/// The escape sequences removed from console output: a control sequence
/// (ESC `[`, parameter characters `0`..=`?`, intermediate characters
/// ` `..=`/` and a final character `@`..=`~`, as colours use), ESC followed
/// by U+009B, or ESC, any of `(`, `)`, `#`, `;`, `?` and one final character
/// of `[0-9A-ORZcf-nqry=>]`.
pub open spec fn ansi_pattern() -> Seq<char> {
    "\\x1b\\[[0-?]*[ -/]*[@-~]|(\\x1b\\x9b)|\\x1b[()#;?]*[0-9A-ORZcf-nqry=>]"@
}

/// A text with its escape sequences removed (see [`ansi_pattern`]).
pub open spec fn ansi_stripped(s: Seq<char>) -> Seq<char> {
    spec_regex_replace_all(ansi_pattern(), s, ""@)
}

/// Strips ANSI escape sequences (colours, cursor movement) from a string:
/// every match of [`ansi_pattern`] is removed by `regex`.
pub fn strip_ansi(input: &str) -> (r: String)
    ensures
        r@ == ansi_stripped(input@),
{
    regex_replace_all(
        "\\x1b\\[[0-?]*[ -/]*[@-~]|(\\x1b\\x9b)|\\x1b[()#;?]*[0-9A-ORZcf-nqry=>]",
        input,
        "",
    )
}

/// The text that Windows-1252 decoding with BOM sniffing (as
/// `encoding_rs::WINDOWS_1252.decode` does) gives for some bytes.
pub uninterp spec fn spec_windows_1252_decode(bytes: Seq<u8>) -> Seq<char>;

/// `std::str::from_utf8`: the bytes as text when they are valid UTF-8.
#[verifier::external_body]
fn utf8_text(bytes: &[u8]) -> (r: Option<String>)
    ensures
        r is Some <==> vstd::utf8::valid_utf8(bytes@),
        r matches Some(s) ==> s@ == vstd::utf8::decode_utf8(bytes@),
{
    match std::str::from_utf8(bytes) {
        Ok(s) => Some(s.to_string()),
        Err(_) => None,
    }
}

/// `encoding_rs::WINDOWS_1252.decode`: decodes the bytes as Windows-1252,
/// unless they start with a byte order mark, in which case the marked
/// encoding (UTF-8 or UTF-16) is used; malformed input is replaced, never
/// refused. The result is named by [`spec_windows_1252_decode`]; what the
/// decoding does with each byte is not restated here.
#[verifier::external_body]
fn windows_1252_text(bytes: &[u8]) -> (r: String)
    ensures
        r@ == spec_windows_1252_decode(bytes@),
{
    let (decoded, _, _) = encoding_rs::WINDOWS_1252.decode(bytes);
    decoded.into_owned()
}

/// Decodes bytes from ARK server output: as UTF-8 when they are valid UTF-8,
/// else as Windows-1252.
pub fn decode_console_output(bytes: &[u8]) -> (s: String)
    ensures
        vstd::utf8::valid_utf8(bytes@) ==> s@ == vstd::utf8::decode_utf8(bytes@),
        !vstd::utf8::valid_utf8(bytes@) ==> s@ == spec_windows_1252_decode(bytes@),
{
    match utf8_text(bytes) {
        Some(s) => s,
        None => windows_1252_text(bytes),
    }
}

/// Maximum number of lines kept in the console buffer per profile.
pub const MAX_CONSOLE_BUFFER_LINES: usize = 1000;

/// The buffer after `line` is added to `buf`: the line goes at the end, and
/// the oldest line goes when the buffer was full.
pub open spec fn rolled(buf: Seq<ConsoleLine>, line: ConsoleLine) -> Seq<ConsoleLine> {
    if buf.len() >= MAX_CONSOLE_BUFFER_LINES {
        buf.drop_first().push(line)
    } else {
        buf.push(line)
    }
}

/// Adding a line to a buffer keeps the newest lines: the line goes last, the
/// buffer grows by one up to [`MAX_CONSOLE_BUFFER_LINES`] lines, and the
/// lines kept are the last ones of the old buffer followed by the new line.
pub proof fn law_rolled_keeps_newest(buf: Seq<ConsoleLine>, line: ConsoleLine)
    requires
        buf.len() <= MAX_CONSOLE_BUFFER_LINES,
    ensures
        rolled(buf, line).last() == line,
        rolled(buf, line).len() == if buf.len() < MAX_CONSOLE_BUFFER_LINES {
            buf.len() + 1
        } else {
            MAX_CONSOLE_BUFFER_LINES as nat
        },
        rolled(buf, line) == buf.push(line).skip(buf.push(line).len() - rolled(buf, line).len()),
{
    assert(rolled(buf, line) =~= buf.push(line).skip(buf.push(line).len() - rolled(buf, line).len()));
}

/// Console output of all profiles: per profile name, the most recent lines,
/// at most [`MAX_CONSOLE_BUFFER_LINES`] of them, oldest first.
pub struct ConsoleBuffer {
    buffers: NameMap<std::collections::VecDeque<ConsoleLine>>,
}

impl ConsoleBuffer {
    /// The buffered lines of each profile.
    pub closed spec fn lines_of(&self) -> Map<Seq<char>, Seq<ConsoleLine>> {
        self.buffers.view_map().map_values(|d: std::collections::VecDeque<ConsoleLine>| d@)
    }

    /// The buffer is well formed and holds at most the maximum per profile.
    pub closed spec fn wf(&self) -> bool {
        &&& self.buffers.wf()
        &&& forall|k: Seq<char>|
            #[trigger] self.buffers.view_map().contains_key(k) ==> self.buffers.view_map()[k]@.len()
                <= MAX_CONSOLE_BUFFER_LINES
    }

    /// The lines buffered for `name` (none when nothing was buffered).
    pub open spec fn lines_for(&self, name: Seq<char>) -> Seq<ConsoleLine> {
        if self.lines_of().contains_key(name) {
            self.lines_of()[name]
        } else {
            seq![]
        }
    }

    /// Creates an empty buffer.
    pub fn new() -> (b: Self)
        ensures
            b.wf(),
            b.lines_of() == Map::<Seq<char>, Seq<ConsoleLine>>::empty(),
    {
        let b = ConsoleBuffer { buffers: NameMap::new() };
        assert(b.lines_of() =~= Map::<Seq<char>, Seq<ConsoleLine>>::empty());
        b
    }

    /// Adds a line to a profile's buffer, dropping the oldest line when the
    /// buffer is full.
    pub fn push_line(&mut self, profile_name: &str, line: ConsoleLine)
        requires
            old(self).wf(),
        ensures
            final(self).wf(),
            final(self).lines_of() == old(self).lines_of().insert(
                profile_name@,
                rolled(old(self).lines_for(profile_name@), line),
            ),
    {
        let ghost before = self.lines_for(profile_name@);
        let mut buffer = match self.buffers.remove(profile_name) {
            Some(b) => b,
            None => std::collections::VecDeque::new(),
        };
        assert(buffer@ == before);
        if buffer.len() >= MAX_CONSOLE_BUFFER_LINES {
            buffer.pop_front();
        }
        buffer.push_back(line);
        assert(buffer@ =~= rolled(before, line));
        let key = String::from_str(profile_name);
        self.buffers.insert(key, buffer);
        assert(self.lines_of() =~= old(self).lines_of().insert(profile_name@, rolled(before, line)));
    }

    /// All buffered lines of a profile, oldest first.
    pub fn get_lines(&self, profile_name: &str) -> (lines: Vec<ConsoleLine>)
        requires
            self.wf(),
        ensures
            lines@ == self.lines_for(profile_name@),
            lines@.len() <= MAX_CONSOLE_BUFFER_LINES,
    {
        match self.buffers.get(profile_name) {
            None => Vec::new(),
            Some(buffer) => {
                let mut out: Vec<ConsoleLine> = Vec::new();
                let mut i: usize = 0;
                while i < buffer.len()
                    invariant
                        i <= buffer@.len(),
                        out@ == buffer@.take(i as int),
                    decreases buffer@.len() - i,
                {
                    out.push(buffer[i].duplicate());
                    assert(buffer@.take(i + 1) =~= buffer@.take(i as int).push(buffer@[i as int]));
                    i = i + 1;
                }
                assert(buffer@.take(i as int) =~= buffer@);
                out
            },
        }
    }

    /// Clears the console buffer of a profile.
    pub fn clear(&mut self, profile_name: &str)
        requires
            old(self).wf(),
        ensures
            final(self).wf(),
            final(self).lines_of() == old(self).lines_of().remove(profile_name@),
    {
        self.buffers.remove(profile_name);
        assert(self.lines_of() =~= old(self).lines_of().remove(profile_name@));
    }

    /// Removes a profile's buffer entirely.
    pub fn remove(&mut self, profile_name: &str)
        requires
            old(self).wf(),
        ensures
            final(self).wf(),
            final(self).lines_of() == old(self).lines_of().remove(profile_name@),
    {
        self.buffers.remove(profile_name);
        assert(self.lines_of() =~= old(self).lines_of().remove(profile_name@));
    }
}

} // verus!

verus! {

impl Default for ConsoleBuffer {
    fn default() -> (b: Self)
        ensures
            b.wf(),
            b.lines_of() == Map::<Seq<char>, Seq<ConsoleLine>>::empty(),
    {
        Self::new()
    }
}

// ---------------------------------------------------------------------------
// Server state
// ---------------------------------------------------------------------------

/// Status change event payload.
#[derive(Clone, Debug)]
pub struct StatusChangedEvent {
    pub profile_name: String,
    pub old_status: ServerStatus,
    pub new_status: ServerStatus,
}

impl StatusChangedEvent {
    /// Whether the change is also announced as a crash: the new status is
    /// `Crashed`.
    pub fn is_crash(&self) -> (r: bool)
        ensures
            r == (self.new_status == ServerStatus::Crashed),
    {
        self.new_status == ServerStatus::Crashed
    }
}

/// Player list update event payload.
#[derive(Clone, Debug)]
pub struct PlayerListUpdatedEvent {
    pub profile_name: String,
    pub players: Vec<PlayerInfo>,
}

/// Global server state tracking running ARK servers, keyed by profile name.
pub struct ServerState {
    /// Handles of running servers.
    servers: NameMap<ServerHandle>,
    /// Current status of each profile.
    statuses: NameMap<ServerStatus>,
    /// Previous status of each profile (for transition detection).
    previous_statuses: NameMap<ServerStatus>,
    /// Last retrieved player list of each profile.
    player_lists: NameMap<Vec<PlayerInfo>>,
}

impl ServerState {
    /// Handles of running servers, by profile name.
    pub closed spec fn handles(&self) -> Map<Seq<char>, ServerHandle> {
        self.servers.view_map()
    }

    /// Current status, by profile name.
    pub closed spec fn statuses(&self) -> Map<Seq<char>, ServerStatus> {
        self.statuses.view_map()
    }

    /// Previous status, by profile name.
    pub closed spec fn previous(&self) -> Map<Seq<char>, ServerStatus> {
        self.previous_statuses.view_map()
    }

    /// Last player list, by profile name.
    pub closed spec fn player_lists(&self) -> Map<Seq<char>, Vec<PlayerInfo>> {
        self.player_lists.view_map()
    }

    /// The maps are well formed, every running server has a status, and
    /// every previous status belongs to a profile that has a status.
    pub closed spec fn wf(&self) -> bool {
        &&& self.servers.wf()
        &&& self.statuses.wf()
        &&& self.previous_statuses.wf()
        &&& self.player_lists.wf()
        &&& self.handles().dom().subset_of(self.statuses().dom())
        &&& self.previous().dom().subset_of(self.statuses().dom())
    }

    /// The status a profile has: its recorded status, or `Stopped`.
    pub open spec fn status_of(&self, name: Seq<char>) -> ServerStatus {
        if self.statuses().contains_key(name) {
            self.statuses()[name]
        } else {
            ServerStatus::Stopped
        }
    }

    /// The state invariant: every running server has a status, and every
    /// previous status belongs to a profile that has a current status.
    pub proof fn lemma_state_invariant(&self)
        requires
            self.wf(),
        ensures
            self.handles().dom().subset_of(self.statuses().dom()),
            self.previous().dom().subset_of(self.statuses().dom()),
    {
    }

    /// Creates an empty state.
    pub fn new() -> (s: Self)
        ensures
            s.wf(),
            s.handles() == Map::<Seq<char>, ServerHandle>::empty(),
            s.statuses() == Map::<Seq<char>, ServerStatus>::empty(),
            s.previous() == Map::<Seq<char>, ServerStatus>::empty(),
            s.player_lists() == Map::<Seq<char>, Vec<PlayerInfo>>::empty(),
    {
        ServerState {
            servers: NameMap::new(),
            statuses: NameMap::new(),
            previous_statuses: NameMap::new(),
            player_lists: NameMap::new(),
        }
    }

    /// Whether a server is running (has a handle) for the profile.
    pub fn is_running(&self, profile_name: &str) -> (r: bool)
        requires
            self.wf(),
        ensures
            r == self.handles().contains_key(profile_name@),
    {
        self.servers.contains_key(profile_name)
    }

    /// The current status of a profile; `Stopped` when none is recorded.
    pub fn get_status(&self, profile_name: &str) -> (s: ServerStatus)
        requires
            self.wf(),
        ensures
            s == self.status_of(profile_name@),
    {
        match self.statuses.get(profile_name) {
            Some(s) => *s,
            None => ServerStatus::Stopped,
        }
    }

    /// The previous status of a profile, when one is recorded.
    pub fn get_previous_status(&self, profile_name: &str) -> (s: Option<ServerStatus>)
        requires
            self.wf(),
        ensures
            s == (if self.previous().contains_key(profile_name@) {
                Some(self.previous()[profile_name@])
            } else {
                None::<ServerStatus>
            }),
    {
        match self.previous_statuses.get(profile_name) {
            Some(s) => Some(*s),
            None => None,
        }
    }

    /// The last player list recorded for a profile.
    pub fn get_player_list(&self, profile_name: &str) -> (r: Option<&Vec<PlayerInfo>>)
        requires
            self.wf(),
        ensures
            r matches Some(l) ==> self.player_lists().contains_key(profile_name@) && *l
                == self.player_lists()[profile_name@],
            r is None ==> !self.player_lists().contains_key(profile_name@),
    {
        self.player_lists.get(profile_name)
    }

    /// Records the player list of a profile.
    pub fn set_player_list(&mut self, profile_name: &str, players: Vec<PlayerInfo>)
        requires
            old(self).wf(),
        ensures
            final(self).wf(),
            final(self).player_lists() == old(self).player_lists().insert(profile_name@, players),
            final(self).handles() == old(self).handles(),
            final(self).statuses() == old(self).statuses(),
            final(self).previous() == old(self).previous(),
    {
        self.player_lists.insert(String::from_str(profile_name), players);
    }

    /// The handle of the server running for a profile.
    pub fn get_handle(&self, profile_name: &str) -> (r: Option<&ServerHandle>)
        requires
            self.wf(),
        ensures
            r matches Some(h) ==> self.handles().contains_key(profile_name@) && *h
                == self.handles()[profile_name@],
            r is None ==> !self.handles().contains_key(profile_name@),
    {
        self.servers.get(profile_name)
    }

    /// Records a newly started server: its handle, and `Running` as both its
    /// current and previous status.
    pub fn insert(&mut self, profile_name: String, handle: ServerHandle)
        requires
            old(self).wf(),
        ensures
            final(self).wf(),
            final(self).status_of(profile_name@) == ServerStatus::Running,
            final(self).handles() == old(self).handles().insert(profile_name@, handle),
            final(self).statuses() == old(self).statuses().insert(
                profile_name@,
                ServerStatus::Running,
            ),
            final(self).previous() == old(self).previous().insert(
                profile_name@,
                ServerStatus::Running,
            ),
            final(self).player_lists() == old(self).player_lists(),
    {
        let n1 = profile_name.clone();
        let n2 = profile_name.clone();
        self.servers.insert(n1, handle);
        self.statuses.insert(n2, ServerStatus::Running);
        self.previous_statuses.insert(profile_name, ServerStatus::Running);
    }

    /// Updates the status of a profile and records it. When the status
    /// changes, the status it had before (`Stopped` when it had none) is
    /// returned, and a status it had stored becomes its previous status; when
    /// it does not change, `None` is returned and the previous status stays.
    pub fn set_status(&mut self, profile_name: &str, status: ServerStatus) -> (r: Option<ServerStatus>)
        requires
            old(self).wf(),
        ensures
            final(self).wf(),
            final(self).status_of(profile_name@) == status,
            final(self).statuses() == old(self).statuses().insert(profile_name@, status),
            final(self).handles() == old(self).handles(),
            final(self).player_lists() == old(self).player_lists(),
            r == (if old(self).status_of(profile_name@) == status {
                None
            } else {
                Some(old(self).status_of(profile_name@))
            }),
            final(self).previous() == (if old(self).statuses().contains_key(profile_name@)
                && old(self).statuses()[profile_name@] != status {
                old(self).previous().insert(profile_name@, old(self).statuses()[profile_name@])
            } else {
                old(self).previous()
            }),
    {
        let old_status: Option<ServerStatus> = match self.statuses.get(profile_name) {
            Some(s) => Some(*s),
            None => None,
        };
        match old_status {
            Some(cur) => {
                if cur == status {
                    None
                } else {
                    self.previous_statuses.insert(String::from_str(profile_name), cur);
                    self.statuses.insert(String::from_str(profile_name), status);
                    Some(cur)
                }
            },
            None => {
                self.statuses.insert(String::from_str(profile_name), status);
                if status == ServerStatus::Stopped {
                    None
                } else {
                    Some(ServerStatus::Stopped)
                }
            },
        }
    }

    /// Forgets the server of a profile: its handle, status and previous
    /// status. The last player list is kept.
    pub fn remove(&mut self, profile_name: &str)
        requires
            old(self).wf(),
        ensures
            final(self).wf(),
            final(self).status_of(profile_name@) == ServerStatus::Stopped,
            final(self).handles() == old(self).handles().remove(profile_name@),
            final(self).statuses() == old(self).statuses().remove(profile_name@),
            final(self).previous() == old(self).previous().remove(profile_name@),
            final(self).player_lists() == old(self).player_lists(),
    {
        self.servers.remove(profile_name);
        self.statuses.remove(profile_name);
        self.previous_statuses.remove(profile_name);
    }

    /// The handles of all running servers, by profile name.
    pub fn all_handles(&self) -> (m: &NameMap<ServerHandle>)
        requires
            self.wf(),
        ensures
            m.wf(),
            m.view_map() == self.handles(),
    {
        &self.servers
    }

    /// Detects the status of a profile from what was observed of it:
    /// `process_alive` (its server process exists) and `port_open` (its query
    /// port accepts connections).
    ///
    /// - a handle exists but the process is dead: `Crashed`;
    /// - a handle exists and the process is alive: `Running`;
    /// - no handle but the port is open (a server started elsewhere): `Running`;
    /// - otherwise: `Stopped`.
    ///
    /// Returns the detected status and whether it differs from the current one.
    pub fn detect_status(&self, profile_name: &str, process_alive: bool, port_open: bool) -> (r: (
        ServerStatus,
        bool,
    ))
        requires
            self.wf(),
        ensures
            r.0 == detected_status(
                self.handles().contains_key(profile_name@),
                process_alive,
                port_open,
            ),
            r.1 == (r.0 != self.status_of(profile_name@)),
    {
        let handle_exists = self.servers.contains_key(profile_name);
        let current_status = self.get_status(profile_name);
        let new_status = if handle_exists && !process_alive {
            ServerStatus::Crashed
        } else if handle_exists && process_alive {
            ServerStatus::Running
        } else if port_open && !handle_exists {
            ServerStatus::Running
        } else {
            ServerStatus::Stopped
        };
        let changed = current_status != new_status;
        (new_status, changed)
    }
}

/// The status that the observations of a server mean.
pub open spec fn detected_status(handle_exists: bool, process_alive: bool, port_open: bool) -> ServerStatus {
    if handle_exists && !process_alive {
        ServerStatus::Crashed
    } else if handle_exists {
        ServerStatus::Running
    } else if port_open {
        ServerStatus::Running
    } else {
        ServerStatus::Stopped
    }
}

impl Default for ServerState {
    fn default() -> (s: Self)
        ensures
            s.wf(),
            s.handles() == Map::<Seq<char>, ServerHandle>::empty(),
            s.statuses() == Map::<Seq<char>, ServerStatus>::empty(),
            s.previous() == Map::<Seq<char>, ServerStatus>::empty(),
            s.player_lists() == Map::<Seq<char>, Vec<PlayerInfo>>::empty(),
    {
        Self::new()
    }
}

/// Whether the server process of a profile is among the running processes:
/// `processes` lists each process's PID and name; the profile's server is
/// alive when it has a handle and a process whose name contains
/// `ShooterGameServer` has the handle's PID.
pub fn check_process_status(state: &ServerState, profile_name: &str, processes: &Vec<(u32, String)>) -> (alive: bool)
    requires
        state.wf(),
    ensures
        alive == (state.handles().contains_key(profile_name@) && exists|i: int|
            0 <= i < processes@.len() && contains(
                #[trigger] processes@[i].1@,
                "ShooterGameServer"@,
            ) && processes@[i].0 == state.handles()[profile_name@].pid),
{
    let handle = match state.get_handle(profile_name) {
        Some(h) => h,
        None => return false,
    };
    let marker = str_chars("ShooterGameServer");
    let mut i: usize = 0;
    while i < processes.len()
        invariant
            i <= processes@.len(),
            marker@ == "ShooterGameServer"@,
            state.handles().contains_key(profile_name@),
            *handle == state.handles()[profile_name@],
            forall|j: int|
                0 <= j < i ==> !(contains(#[trigger] processes@[j].1@, "ShooterGameServer"@)
                    && processes@[j].0 == handle.pid),
        decreases processes.len() - i,
    {
        let name = str_chars(processes[i].1.as_str());
        let found = find_chars(&name, &marker);
        if found.is_some() && processes[i].0 == handle.pid {
            assert(contains(processes@[i as int].1@, "ShooterGameServer"@));
            return true;
        }
        i = i + 1;
    }
    false
}

// ---------------------------------------------------------------------------
// Command line and working directory
// ---------------------------------------------------------------------------

/// One `?Key=Value` option.
pub open spec fn option_arg(key: Seq<char>, value: Seq<char>) -> Seq<char> {
    "?"@ + key + "="@ + value
}

/// The options for a list of key/value settings, in order.
pub open spec fn settings_args(settings: Seq<(String, String)>) -> Seq<Seq<char>> {
    settings.map_values(|kv: (String, String)| option_arg(kv.0@, kv.1@))
}

/// The server's command-line arguments for a profile: the map, the query
/// port, the player limit, the difficulty unless it is 1, the server and
/// admin passwords, then each extra setting and each extra user setting.
pub open spec fn server_args(p: Profile) -> Seq<Seq<char>> {
    let base = seq![
        p.map@,
        "?QueryPort="@ + decimal(p.port as nat),
        "?MaxPlayers="@ + decimal(p.max_players as nat)
    ];
    let with_difficulty = if p.difficulty@ != "1"@ {
        base.push("?Difficulty="@ + p.difficulty@)
    } else {
        base
    };
    let password = match p.admin_password {
        Some(pw) => pw@,
        None => Seq::<char>::empty(),
    };
    with_difficulty.push(
        "?ServerPassword="@ + p.name@ + "?ServerAdminPassword="@ + password,
    ) + settings_args(p.extra_settings@) + settings_args(p.extra_user_settings@)
}

/// The number of arguments before the extra settings: the map, the query
/// port, the player limit, the difficulty when it is not 1, and the
/// passwords.
pub open spec fn fixed_arg_count(p: Profile) -> int {
    if p.difficulty@ != "1"@ {
        5
    } else {
        4
    }
}

/// The command line of a profile: the map first; the passwords last of the
/// fixed arguments; then one `?Key=Value` argument per extra setting, in
/// order, and after them one per extra user setting, in order, whatever the
/// other settings are.
pub proof fn law_server_args_layout(p: Profile)
    ensures
        server_args(p).len() == fixed_arg_count(p) + p.extra_settings@.len() + p.extra_user_settings@.len(),
        server_args(p)[0] == p.map@,
        server_args(p)[1] == "?QueryPort="@ + decimal(p.port as nat),
        server_args(p)[2] == "?MaxPlayers="@ + decimal(p.max_players as nat),
        server_args(p)[fixed_arg_count(p) - 1] == "?ServerPassword="@ + p.name@ + "?ServerAdminPassword="@
            + match p.admin_password {
            Some(pw) => pw@,
            None => Seq::<char>::empty(),
        },
        forall|i: int|
            0 <= i < p.extra_settings@.len() ==> #[trigger] server_args(p)[fixed_arg_count(p) + i] == "?"@
                + p.extra_settings@[i].0@ + "="@ + p.extra_settings@[i].1@,
        forall|i: int|
            0 <= i < p.extra_user_settings@.len() ==> #[trigger] server_args(p)[fixed_arg_count(p)
                + p.extra_settings@.len() + i] == "?"@ + p.extra_user_settings@[i].0@ + "="@
                + p.extra_user_settings@[i].1@,
{
    let n = fixed_arg_count(p);
    let e = p.extra_settings@.len();
    assert forall|i: int| 0 <= i < e implies #[trigger] server_args(p)[n + i] == "?"@
        + p.extra_settings@[i].0@ + "="@ + p.extra_settings@[i].1@ by {
        assert(settings_args(p.extra_settings@)[i] == option_arg(
            p.extra_settings@[i].0@,
            p.extra_settings@[i].1@,
        ));
    }
    assert forall|i: int| 0 <= i < p.extra_user_settings@.len() implies #[trigger] server_args(p)[n + e
        + i] == "?"@ + p.extra_user_settings@[i].0@ + "="@ + p.extra_user_settings@[i].1@ by {
        assert(settings_args(p.extra_user_settings@)[i] == option_arg(
            p.extra_user_settings@[i].0@,
            p.extra_user_settings@[i].1@,
        ));
    }
}

/// What the observations of a server mean: a running server (one with a
/// handle) whose process is alive is `Running` and one whose process is gone
/// is `Crashed`, whatever its port says; without a handle, an open port
/// means a server started elsewhere (`Running`), a closed one `Stopped`.
pub proof fn law_detected_status(process_alive: bool, port_open: bool)
    ensures
        detected_status(true, true, port_open) == ServerStatus::Running,
        detected_status(true, false, port_open) == ServerStatus::Crashed,
        detected_status(false, process_alive, true) == ServerStatus::Running,
        detected_status(false, process_alive, false) == ServerStatus::Stopped,
{
}

fn push_settings(args: &mut Vec<String>, settings: &Vec<(String, String)>)
    ensures
        final(args)@.map_values(|s: String| s@) == old(args)@.map_values(|s: String| s@)
            + settings_args(settings@),
{
    let ghost start = old(args)@.map_values(|s: String| s@);
    let mut i: usize = 0;
    while i < settings.len()
        invariant
            i <= settings@.len(),
            args@.map_values(|s: String| s@) == start + settings_args(settings@.take(i as int)),
        decreases settings.len() - i,
    {
        let ghost before = args@;
        let mut v: Vec<char> = Vec::new();
        extend_with_str(&mut v, "?");
        extend_with_str(&mut v, settings[i].0.as_str());
        extend_with_str(&mut v, "=");
        extend_with_str(&mut v, settings[i].1.as_str());
        args.push(chars_to_string(&v));
        assert(settings_args(settings@.take(i + 1)) =~= settings_args(settings@.take(i as int)).push(
            option_arg(settings@[i as int].0@, settings@[i as int].1@),
        ));
        assert(args@.map_values(|s: String| s@) =~= before.map_values(|s: String| s@).push(
            option_arg(settings@[i as int].0@, settings@[i as int].1@),
        ));
        i = i + 1;
    }
    assert(settings@.take(i as int) =~= settings@);
}

/// Builds the ARK server command-line arguments from a profile:
/// `{map} ?QueryPort={port} ?MaxPlayers={max} [?Difficulty={d}]
/// ?ServerPassword={name}?ServerAdminPassword={password} ?{key}={value}...`.
pub fn build_server_args(profile: &Profile) -> (args: Vec<String>)
    ensures
        args@.map_values(|s: String| s@) == server_args(*profile),
{
    let mut args: Vec<String> = Vec::new();
    args.push(profile.map.clone());
    let mut v: Vec<char> = Vec::new();
    extend_with_str(&mut v, "?QueryPort=");
    let digits = decimal_chars(profile.port as u64);
    extend_with_chars(&mut v, &digits);
    args.push(chars_to_string(&v));
    let mut v: Vec<char> = Vec::new();
    extend_with_str(&mut v, "?MaxPlayers=");
    let digits = decimal_chars(profile.max_players as u64);
    extend_with_chars(&mut v, &digits);
    args.push(chars_to_string(&v));
    if !str_eq(profile.difficulty.as_str(), "1") {
        let mut v: Vec<char> = Vec::new();
        extend_with_str(&mut v, "?Difficulty=");
        extend_with_str(&mut v, profile.difficulty.as_str());
        args.push(chars_to_string(&v));
    }
    let mut v: Vec<char> = Vec::new();
    extend_with_str(&mut v, "?ServerPassword=");
    extend_with_str(&mut v, profile.name.as_str());
    extend_with_str(&mut v, "?ServerAdminPassword=");
    match &profile.admin_password {
        Some(pw) => extend_with_str(&mut v, pw.as_str()),
        None => {},
    }
    args.push(chars_to_string(&v));
    assert(args@.map_values(|s: String| s@) =~= server_args(*profile).take(args@.len() as int));
    push_settings(&mut args, &profile.extra_settings);
    push_settings(&mut args, &profile.extra_user_settings);
    assert(args@.map_values(|s: String| s@) =~= server_args(*profile));
    args
}

/// The working directory for a server executable: two levels up from the
/// executable (`ShooterGame\Binaries\Win64\ShooterGameServer.exe` gives
/// `ShooterGame\Binaries`), one level when there is only one, the empty path
/// when there is none.
pub open spec fn working_directory(exe: Seq<char>) -> Seq<char> {
    match spec_path_parent(exe) {
        Some(win64) => match spec_path_parent(win64) {
            Some(binaries) => binaries,
            None => win64,
        },
        None => Seq::<char>::empty(),
    }
}

/// Gets the working directory for ARK server execution (see [`working_directory`]).
pub fn get_working_directory(ark_exe_path: &str) -> (dir: String)
    ensures
        dir@ == working_directory(ark_exe_path@),
{
    match path_parent(ark_exe_path) {
        Some(win64) => match path_parent(win64.as_str()) {
            Some(binaries) => binaries,
            None => win64,
        },
        None => String::new(),
    }
}

} // verus!
