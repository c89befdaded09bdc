//! Parsing of the ARK `PlayerId` RCON reply, player records and RCON errors.
use vstd::prelude::*;
use crate::clock::Timestamp;
use crate::text::{
    chars_to_string, decimal, decimal_chars, extend_with_chars, extend_with_str, find, lemma_find, occurs_at, find_char, find_chars, lines, parse_u64, parse_u64_chars,
    slice_chars, split_lines, starts_with, starts_with_chars, str_chars, trim, trim_chars,
};

verus! {

/// Player information retrieved from an ARK server over RCON.
#[derive(Clone, Debug, PartialEq)]
pub struct PlayerInfo {
    /// Player's display name.
    pub name: String,
    /// ARK player ID.
    pub player_id: u64,
    /// Tribe name (empty if the player is not in a tribe).
    pub tribe: String,
    /// When the player joined, when known.
    pub joined_at: Option<Timestamp>,
}

/// The mathematical content of a [`PlayerInfo`].
pub struct PlayerInfoView {
    pub name: Seq<char>,
    pub player_id: u64,
    pub tribe: Seq<char>,
    pub joined_at: Option<Timestamp>,
}

impl View for PlayerInfo {
    type V = PlayerInfoView;

    open spec fn view(&self) -> PlayerInfoView {
        PlayerInfoView {
            name: self.name@,
            player_id: self.player_id,
            tribe: self.tribe@,
            joined_at: self.joined_at,
        }
    }
}

/// The tag that opens the player id: `(ID:`.
pub open spec fn id_tag() -> Seq<char> {
    seq!['(', 'I', 'D', ':']
}

/// The tag that opens the tribe name: `(Tribe:`.
pub open spec fn tribe_tag() -> Seq<char> {
    seq!['(', 'T', 'r', 'i', 'b', 'e', ':']
}

/// The header line that opens the reply.
pub open spec fn list_header() -> Seq<char> {
    seq!['P', 'l', 'a', 'y', 'e', 'r', 'I', 'd', ' ', 'l', 'i', 's', 't', ':']
}

/// The summary line that closes the reply.
pub open spec fn total_header() -> Seq<char> {
    seq![
        'T', 'o', 't', 'a', 'l', ' ', 'p', 'l', 'a', 'y', 'e', 'r', 's', ' ', 'c', 'o', 'n',
        'n', 'e', 'c', 't', 'e', 'd', ':'
    ]
}

/// The tribe named in the text that follows the player id: what stands after
/// `(Tribe:` up to the next `)` (or to the end when none follows); empty when
/// there is no `(Tribe:` tag.
pub open spec fn tribe_of(rest: Seq<char>) -> Seq<char> {
    match find(rest, tribe_tag()) {
        None => seq![],
        Some(t) => {
            let content = rest.skip(t + 7);
            match find(content, seq![')']) {
                Some(e) => content.take(e),
                None => content,
            }
        },
    }
}

/// One line `Name (ID:12345) (Tribe:TribeName)` or `Name (ID:12345)`: the
/// name is what precedes the first `(ID:`, trimmed; the id is the decimal
/// number between `(ID:` and the next `)`. `None` when either delimiter is
/// missing or the id is not a `u64`.
pub open spec fn parse_player_line_spec(line: Seq<char>) -> Option<PlayerInfoView> {
    match find(line, id_tag()) {
        None => None,
        Some(id_start) => match find(line.skip(id_start), seq![')']) {
            None => None,
            Some(id_end) => match parse_u64(line.subrange(id_start + 4, id_start + id_end)) {
                None => None,
                Some(pid) => Some(
                    PlayerInfoView {
                        name: trim(line.take(id_start)),
                        player_id: pid,
                        tribe: tribe_of(line.skip(id_start + id_end + 1)),
                        joined_at: None,
                    },
                ),
            },
        },
    }
}

/// Whether a (trimmed) line is one of the reply's header lines.
pub open spec fn is_header_line(l: Seq<char>) -> bool {
    starts_with(l, list_header()) || starts_with(l, total_header())
}

/// The players that one raw line of the reply contributes: none for a blank
/// line, a header line, or a line that does not parse; else the parsed player.
pub open spec fn line_players(raw: Seq<char>) -> Seq<PlayerInfoView> {
    let l = trim(raw);
    if l.len() == 0 || is_header_line(l) {
        seq![]
    } else {
        match parse_player_line_spec(l) {
            Some(p) => seq![p],
            None => seq![],
        }
    }
}

/// The players of a sequence of lines, in order.
pub open spec fn players_of_lines(ls: Seq<Seq<char>>) -> Seq<PlayerInfoView>
    decreases ls.len(),
{
    if ls.len() == 0 {
        seq![]
    } else {
        players_of_lines(ls.drop_last()) + line_players(ls.last())
    }
}

/// The players listed in a `PlayerId` reply, in the order of its lines.
pub open spec fn parse_player_list_spec(output: Seq<char>) -> Seq<PlayerInfoView> {
    players_of_lines(lines(output))
}

/// Parses one player line (see [`parse_player_line_spec`]).
fn parse_player_line(line: &Vec<char>) -> (r: Option<PlayerInfo>)
    ensures
        r matches Some(p) ==> parse_player_line_spec(line@) == Some(p@),
        r is None ==> parse_player_line_spec(line@) is None,
{
    let id_tag_v = vec!['(', 'I', 'D', ':'];
    assert(id_tag_v@ =~= id_tag());
    let id_start = match find_chars(line, &id_tag_v) {
        None => return None,
        Some(i) => i,
    };
    proof {
        lemma_find(line@, id_tag());
    }
    let after = slice_chars(line, id_start, line.len());
    assert(after@ =~= line@.skip(id_start as int));
    let id_end = match find_char(&after, ')') {
        None => return None,
        Some(e) => e,
    };
    proof {
        lemma_find(after@, seq![')']);
        assert(line@.subrange(id_start as int, id_start + 4) == id_tag());
        assert(occurs_at(after@, seq![')'], id_end as int));
        assert(after@.subrange(id_end as int, id_end + 1)[0] == ')');
        assert(after@[id_end as int] == ')');
        if id_end < 4 {
            assert(after@[id_end as int] == line@[id_start + id_end]);
            assert(line@[id_start + id_end] == line@.subrange(id_start as int, id_start + 4)[id_end as int]);
            assert(id_tag()[id_end as int] != ')');
            assert(false);
        }
    }
    let id_text = slice_chars(line, id_start + 4, id_start + id_end);
    let player_id = match parse_u64_chars(&id_text) {
        None => return None,
        Some(v) => v,
    };
    let name_raw = slice_chars(line, 0, id_start);
    assert(name_raw@ =~= line@.take(id_start as int));
    let name_chars = trim_chars(&name_raw);
    let rest = slice_chars(line, id_start + id_end + 1, line.len());
    assert(rest@ =~= line@.skip(id_start + id_end + 1));
    let tribe_chars = tribe_from_rest(&rest);
    Some(
        PlayerInfo {
            name: chars_to_string(&name_chars),
            player_id,
            tribe: chars_to_string(&tribe_chars),
            joined_at: None,
        },
    )
}

/// Extracts the tribe from the text that follows the player id.
fn tribe_from_rest(rest: &Vec<char>) -> (t: Vec<char>)
    ensures
        t@ == tribe_of(rest@),
{
    let tag = vec!['(', 'T', 'r', 'i', 'b', 'e', ':'];
    assert(tag@ =~= tribe_tag());
    match find_chars(rest, &tag) {
        None => Vec::new(),
        Some(pos) => {
            proof {
                lemma_find(rest@, tribe_tag());
                assert(tribe_tag().len() == 7);
                assert(occurs_at(rest@, tribe_tag(), pos as int));
                assert(pos + 7 <= rest@.len());
            }
            let n = rest.len();
            let content = slice_chars(rest, pos + 7, n);
            assert(content@ =~= rest@.skip(pos + 7));
            match find_char(&content, ')') {
                Some(e) => {
                    proof {
                        lemma_find(content@, seq![')']);
                    }
                    let r = slice_chars(&content, 0, e);
                    assert(r@ =~= content@.take(e as int));
                    r
                },
                None => content,
            }
        },
    }
}

/// Parses the output of the `PlayerId` command.
///
/// The reply lists one player per line, `PlayerName (ID:12345) (Tribe:TribeName)`
/// or `PlayerName (ID:12345)` for a player without a tribe. Blank lines, the
/// `PlayerId list:` and `Total players connected:` lines, and lines that do not
/// parse are skipped.
pub fn parse_player_list(output: &str) -> (players: Vec<PlayerInfo>)
    ensures
        players@.map_values(|p: PlayerInfo| p@) == parse_player_list_spec(output@),
{
    let text = str_chars(output);
    let ls = split_lines(&text);
    let header1 = vec!['P', 'l', 'a', 'y', 'e', 'r', 'I', 'd', ' ', 'l', 'i', 's', 't', ':'];
    let header2 = vec![
        'T', 'o', 't', 'a', 'l', ' ', 'p', 'l', 'a', 'y', 'e', 'r', 's', ' ', 'c', 'o', 'n',
        'n', 'e', 'c', 't', 'e', 'd', ':'
    ];
    assert(header1@ =~= list_header());
    assert(header2@ =~= total_header());
    let ghost all = lines(output@);
    let mut players: Vec<PlayerInfo> = Vec::new();
    let mut i: usize = 0;
    while i < ls.len()
        invariant
            i <= ls@.len() == all.len(),
            forall|k: int| 0 <= k < ls@.len() ==> #[trigger] ls@[k]@ == all[k],
            header1@ == list_header(),
            header2@ == total_header(),
            players@.map_values(|p: PlayerInfo| p@) == players_of_lines(all.take(i as int)),
        decreases ls.len() - i,
    {
        let ghost before = players@;
        let line = trim_chars(&ls[i]);
        assert(all.take(i + 1).drop_last() =~= all.take(i as int));
        assert(all.take(i + 1).last() == all[i as int]);
        if line.len() > 0 && !starts_with_chars(&line, &header1) && !starts_with_chars(
            &line,
            &header2,
        ) {
            match parse_player_line(&line) {
                Some(p) => {
                    players.push(p);
                    assert(players@.map_values(|p: PlayerInfo| p@) =~= before.map_values(
                        |p: PlayerInfo| p@,
                    ) + line_players(all[i as int]));
                },
                None => {
                    assert(line_players(all[i as int]) =~= Seq::<PlayerInfoView>::empty());
                    assert(players@.map_values(|p: PlayerInfo| p@) =~= before.map_values(
                        |p: PlayerInfo| p@,
                    ) + line_players(all[i as int]));
                },
            }
        } else {
            assert(line_players(all[i as int]) =~= Seq::<PlayerInfoView>::empty());
            assert(players@.map_values(|p: PlayerInfo| p@) =~= before.map_values(
                |p: PlayerInfo| p@,
            ) + line_players(all[i as int]));
        }
        i = i + 1;
    }
    assert(all.take(ls.len() as int) =~= all);
    players
}

} // verus!

verus! {

/// Tribe text used by [`PlayerInfo::to_display_string`]: the tribe, or `None`
/// when the player has no tribe.
pub open spec fn tribe_display(tribe: Seq<char>) -> Seq<char> {
    if tribe.len() == 0 {
        "None"@
    } else {
        tribe
    }
}

/// The contents of a list of players.
pub open spec fn players_view(v: Seq<PlayerInfo>) -> Seq<PlayerInfoView> {
    v.map_values(|p: PlayerInfo| p@)
}

/// A copy of a list of players.
pub fn copy_players(v: &Vec<PlayerInfo>) -> (r: Vec<PlayerInfo>)
    ensures
        players_view(r@) == players_view(v@),
{
    let mut r: Vec<PlayerInfo> = Vec::new();
    let mut i: usize = 0;
    while i < v.len()
        invariant
            i <= v@.len(),
            players_view(r@) == players_view(v@.take(i as int)),
        decreases v.len() - i,
    {
        let ghost before = r@;
        r.push(v[i].duplicate());
        assert(players_view(r@) =~= players_view(before).push(v@[i as int]@));
        assert(players_view(v@.take(i + 1)) =~= players_view(v@.take(i as int)).push(v@[i as int]@));
        i = i + 1;
    }
    assert(v@.take(i as int) =~= v@);
    r
}

impl PlayerInfo {
    /// A copy of this player.
    pub fn duplicate(&self) -> (r: PlayerInfo)
        ensures
            r@ == self@,
    {
        PlayerInfo {
            name: self.name.clone(),
            player_id: self.player_id,
            tribe: self.tribe.clone(),
            joined_at: self.joined_at,
        }
    }

    /// The one-line description `Name (ID:12345) [Tribe:TribeName]`, with
    /// `None` in place of an empty tribe.
    pub fn to_display_string(&self) -> (s: String)
        ensures
            s@ == self.name@ + " (ID:"@ + decimal(self.player_id as nat) + ") [Tribe:"@
                + tribe_display(self.tribe@) + "]"@,
    {
        let mut v: Vec<char> = Vec::new();
        extend_with_str(&mut v, self.name.as_str());
        extend_with_str(&mut v, " (ID:");
        let digits = decimal_chars(self.player_id);
        extend_with_chars(&mut v, &digits);
        extend_with_str(&mut v, ") [Tribe:");
        if self.tribe.as_str().is_empty() {
            proof {
                assert(self.tribe@.len() == 0);
            }
            extend_with_str(&mut v, "None");
        } else {
            extend_with_str(&mut v, self.tribe.as_str());
        }
        extend_with_str(&mut v, "]");
        chars_to_string(&v)
    }
}

/// RCON connection error types.
#[derive(Clone, Debug)]
pub enum RconConnError {
    /// Failed to connect to the RCON server.
    ConnectionFailed { addr: String, reason: String },
    /// Authentication with RCON password failed.
    AuthFailed { reason: String },
    /// Command execution failed.
    CommandFailed { command: String, reason: String },
    /// Server not running (no handle found).
    ServerNotRunning { profile_name: String },
    /// Profile not found.
    ProfileNotFound { name: String },
    /// Profile load failed.
    ProfileLoadFailed { name: String, reason: String },
    /// RCON port not available.
    PortNotAvailable { port: u16 },
    /// Timed out waiting for response.
    Timeout { command: String },
}

/// The user-facing message of each [`RconConnError`].
pub open spec fn rcon_error_message(e: RconConnError) -> Seq<char> {
    match e {
        RconConnError::ConnectionFailed { addr, reason } => "RCON connection failed to "@ + addr@
            + ": "@ + reason@,
        RconConnError::AuthFailed { reason } => "RCON authentication failed: "@ + reason@,
        RconConnError::CommandFailed { command, reason } => "RCON command '"@ + command@
            + "' failed: "@ + reason@,
        RconConnError::ServerNotRunning { profile_name } => "Server for profile '"@ + profile_name@
            + "' is not running"@,
        RconConnError::ProfileNotFound { name } => "Profile '"@ + name@ + "' not found"@,
        RconConnError::ProfileLoadFailed { name, reason } => "Failed to load profile '"@ + name@
            + "': "@ + reason@,
        RconConnError::PortNotAvailable { port } => "RCON port "@ + decimal(port as nat)
            + " is not available"@,
        RconConnError::Timeout { command } => "RCON command '"@ + command@ + "' timed out"@,
    }
}

impl RconConnError {
    /// The user-facing message of this error.
    pub fn message(&self) -> (s: String)
        ensures
            s@ == rcon_error_message(*self),
    {
        let mut v: Vec<char> = Vec::new();
        match self {
            RconConnError::ConnectionFailed { addr, reason } => {
                extend_with_str(&mut v, "RCON connection failed to ");
                extend_with_str(&mut v, addr.as_str());
                extend_with_str(&mut v, ": ");
                extend_with_str(&mut v, reason.as_str());
            },
            RconConnError::AuthFailed { reason } => {
                extend_with_str(&mut v, "RCON authentication failed: ");
                extend_with_str(&mut v, reason.as_str());
            },
            RconConnError::CommandFailed { command, reason } => {
                extend_with_str(&mut v, "RCON command '");
                extend_with_str(&mut v, command.as_str());
                extend_with_str(&mut v, "' failed: ");
                extend_with_str(&mut v, reason.as_str());
            },
            RconConnError::ServerNotRunning { profile_name } => {
                extend_with_str(&mut v, "Server for profile '");
                extend_with_str(&mut v, profile_name.as_str());
                extend_with_str(&mut v, "' is not running");
            },
            RconConnError::ProfileNotFound { name } => {
                extend_with_str(&mut v, "Profile '");
                extend_with_str(&mut v, name.as_str());
                extend_with_str(&mut v, "' not found");
            },
            RconConnError::ProfileLoadFailed { name, reason } => {
                extend_with_str(&mut v, "Failed to load profile '");
                extend_with_str(&mut v, name.as_str());
                extend_with_str(&mut v, "': ");
                extend_with_str(&mut v, reason.as_str());
            },
            RconConnError::PortNotAvailable { port } => {
                extend_with_str(&mut v, "RCON port ");
                let digits = decimal_chars(*port as u64);
                extend_with_chars(&mut v, &digits);
                extend_with_str(&mut v, " is not available");
            },
            RconConnError::Timeout { command } => {
                extend_with_str(&mut v, "RCON command '");
                extend_with_str(&mut v, command.as_str());
                extend_with_str(&mut v, "' timed out");
            },
        }
        chars_to_string(&v)
    }

    /// The error that a failure of the RCON client library becomes: an
    /// authentication failure becomes [`RconConnError::AuthFailed`]; any other
    /// failure a [`RconConnError::ConnectionFailed`] to address `unknown`,
    /// carrying the failure's own description.
    pub fn from_client_failure(is_auth: bool, description: String) -> (e: RconConnError)
        ensures
            is_auth ==> e is AuthFailed && e->AuthFailed_reason@ == "Authentication failed"@,
            !is_auth ==> e is ConnectionFailed && e->ConnectionFailed_addr@ == "unknown"@
                && e->ConnectionFailed_reason@ == description@,
    {
        if is_auth {
            RconConnError::AuthFailed { reason: String::from_str("Authentication failed") }
        } else {
            RconConnError::ConnectionFailed { addr: String::from_str("unknown"), reason: description }
        }
    }
}

/// The query port of a server reached at an RCON port (RCON port = query
/// port + 1), saturating at 0.
pub fn query_port_for(rcon_port: u16) -> (p: u16)
    ensures
        p == (if rcon_port == 0 { 0 } else { (rcon_port - 1) as u16 }),
{
    rcon_port.saturating_sub(1)
}

/// The error of a connection to an RCON address that failed.
pub fn connection_failed(addr: String, reason: String) -> (e: RconConnError)
    ensures
        e == (RconConnError::ConnectionFailed { addr, reason }),
{
    RconConnError::ConnectionFailed { addr, reason }
}

/// The error of an RCON command that failed.
pub fn command_failed(command: &str, reason: String) -> (e: RconConnError)
    ensures
        e matches RconConnError::CommandFailed { command: c, reason: r } && c@ == command@ && r == reason,
{
    RconConnError::CommandFailed { command: String::from_str(command), reason }
}

} // verus!
