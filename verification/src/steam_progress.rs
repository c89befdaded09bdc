//! Parts of SteamCMD progress lines.
//!
//! A line is matched against regular expressions (by the `regex` crate); the
//! percentage and speed it holds are decimal numbers that the caller reads
//! as floating point.
use vstd::prelude::*;
use crate::paths::opt_view;
use crate::regex_text::{captures_view, group, group_of, regex_captures, spec_regex_captures};
use crate::text::{chars_to_string, parse_u64, parse_u64_chars, split_char, split_on, str_chars, trim, trim_chars};

verus! {

/// The seconds an `HH:MM:SS` text stands for: three `:`-separated parts,
/// each a `u64`; `None` otherwise.
pub open spec fn eta_seconds(s: Seq<char>) -> Option<int> {
    let parts = split_on(s, ':');
    if parts.len() != 3 {
        None
    } else {
        match (parse_u64(parts[0]), parse_u64(parts[1]), parse_u64(parts[2])) {
            (Some(h), Some(m), Some(x)) => Some(h * 3600 + m * 60 + x),
            _ => None,
        }
    }
}

/// Parses an ETA like `00:05:30` into seconds (see [`eta_seconds`]). The
/// total must fit a `u64`: a larger one overflows the computation.
pub fn parse_eta(eta_str: &str) -> (r: Option<u64>)
    requires
        eta_seconds(eta_str@) matches Some(t) ==> t <= u64::MAX,
    ensures
        r matches Some(t) ==> eta_seconds(eta_str@) == Some(t as int),
        r is None ==> eta_seconds(eta_str@) is None,
{
    let s = str_chars(eta_str);
    let parts = split_char(&s, ':');
    if parts.len() != 3 {
        return None;
    }
    let hours = match parse_u64_chars(&parts[0]) {
        Some(v) => v,
        None => return None,
    };
    let minutes = match parse_u64_chars(&parts[1]) {
        Some(v) => v,
        None => return None,
    };
    let seconds = match parse_u64_chars(&parts[2]) {
        Some(v) => v,
        None => return None,
    };
    Some(hours * 3600 + minutes * 60 + seconds)
}

/// A percentage: digits, optionally a decimal part, then `%`.
pub open spec fn percent_pattern() -> Seq<char> {
    "(\\d+(?:\\.\\d+)?)\\s*%"@
}

/// Bytes done of a total: `(done / total bytes)`.
pub open spec fn bytes_pattern() -> Seq<char> {
    "\\((\\d+)\\s*/\\s*(\\d+)\\s+bytes\\)"@
}

/// A remaining time: `ETA` and `HH:MM:SS`.
pub open spec fn eta_pattern() -> Seq<char> {
    "ETA\\s+(\\d+:\\d+:\\d+)"@
}

/// A speed: `@`, a decimal number and a unit `B/s`, `KB/s`, `MB/s` or `GB/s`.
pub open spec fn speed_pattern() -> Seq<char> {
    "@\\s*([\\d.]+\\s*[KMG]?B/s)"@
}

/// The speed pattern reads the speeds SteamCMD prints in every unit: after
/// `@`, whitespace and the number, an optional unit prefix `K`, `M` or `G`
/// (nothing for plain bytes) followed by `B/s`, all inside the captured
/// group.
pub proof fn law_speed_pattern_units()
    ensures
        speed_pattern().len() == 24,
        speed_pattern().subrange(0, 5) == "@\\s*("@,
        speed_pattern()[14] == '[' && speed_pattern()[15] == 'K' && speed_pattern()[16] == 'M'
            && speed_pattern()[17] == 'G' && speed_pattern()[18] == ']',
        speed_pattern().subrange(19, 24) == "?B/s)"@,
{
    reveal_strlit("@\\s*([\\d.]+\\s*[KMG]?B/s)");
    reveal_strlit("@\\s*(");
    reveal_strlit("?B/s)");
    assert(speed_pattern().subrange(0, 5) =~= "@\\s*("@);
    assert(speed_pattern().subrange(19, 24) =~= "?B/s)"@);
}

/// The parts of a progress line.
#[derive(Clone, Debug)]
pub struct ProgressParts {
    /// The line without surrounding whitespace.
    pub line: String,
    /// The text of the percentage, when there is one.
    pub percent_text: Option<String>,
    /// The bytes done and the total, when the line gives them.
    pub bytes: Option<(u64, u64)>,
    /// The text of the speed (number and unit), when there is one.
    pub speed_text: Option<String>,
    /// The `HH:MM:SS` text of the remaining time, when there is one.
    pub eta_text: Option<String>,
}

/// Whether a progress line is given up: a matched group that must be there
/// is missing, or a byte count does not fit a `u64`.
pub open spec fn progress_given_up(t: Seq<char>) -> bool {
    let b = spec_regex_captures(bytes_pattern(), t);
    let sp = spec_regex_captures(speed_pattern(), t);
    let e = spec_regex_captures(eta_pattern(), t);
    ||| b is Some && (group_of(b, 1) is None || group_of(b, 2) is None || parse_u64(
        group_of(b, 1)->Some_0,
    ) is None || parse_u64(group_of(b, 2)->Some_0) is None)
    ||| sp is Some && group_of(sp, 1) is None
    ||| e is Some && group_of(e, 1) is None
}

fn parse_group(c: &Option<Vec<Option<String>>>, i: usize) -> (r: Option<u64>)
    ensures
        r == match group_of(captures_view(*c), i as int) {
            Some(g) => parse_u64(g),
            None => None,
        },
{
    match group(c, i) {
        Some(g) => parse_u64_chars(&str_chars(g.as_str())),
        None => None,
    }
}

/// Reads the parts of a SteamCMD output line, trimmed (see [`trim`]): the
/// first percentage (group 1 of [`percent_pattern`]), the byte counts
/// ([`bytes_pattern`]), the speed ([`speed_pattern`]) and the remaining time
/// ([`eta_pattern`]). The line is given up (`None`) as described by
/// [`progress_given_up`].
pub fn progress_parts(line: &str) -> (r: Option<ProgressParts>)
    ensures
        ({
            let t = trim(line@);
            &&& r is None <==> progress_given_up(t)
            &&& r matches Some(p) ==> {
                &&& p.line@ == t
                &&& opt_view(p.percent_text) == group_of(spec_regex_captures(percent_pattern(), t), 1)
                &&& p.bytes == match spec_regex_captures(bytes_pattern(), t) {
                    Some(_) => Some(
                        (
                            parse_u64(group_of(spec_regex_captures(bytes_pattern(), t), 1)->Some_0)->Some_0,
                            parse_u64(group_of(spec_regex_captures(bytes_pattern(), t), 2)->Some_0)->Some_0,
                        ),
                    ),
                    None => None,
                }
                &&& opt_view(p.speed_text) == group_of(spec_regex_captures(speed_pattern(), t), 1)
                &&& opt_view(p.eta_text) == group_of(spec_regex_captures(eta_pattern(), t), 1)
            }
        }),
{
    let chars = str_chars(line);
    let trimmed = trim_chars(&chars);
    let t = chars_to_string(&trimmed);
    let pc = regex_captures("(\\d+(?:\\.\\d+)?)\\s*%", t.as_str());
    let bc = regex_captures("\\((\\d+)\\s*/\\s*(\\d+)\\s+bytes\\)", t.as_str());
    let ec = regex_captures("ETA\\s+(\\d+:\\d+:\\d+)", t.as_str());
    let sc = regex_captures("@\\s*([\\d.]+\\s*[KMG]?B/s)", t.as_str());
    let bytes = match &bc {
        Some(_) => {
            let done = match parse_group(&bc, 1) {
                Some(v) => v,
                None => return None,
            };
            let total = match parse_group(&bc, 2) {
                Some(v) => v,
                None => return None,
            };
            Some((done, total))
        },
        None => None,
    };
    let speed_text = match &sc {
        Some(_) => match group(&sc, 1) {
            Some(g) => Some(g),
            None => return None,
        },
        None => None,
    };
    let eta_text = match &ec {
        Some(_) => match group(&ec, 1) {
            Some(g) => Some(g),
            None => return None,
        },
        None => None,
    };
    Some(ProgressParts { line: t, percent_text: group(&pc, 1), bytes, speed_text, eta_text })
}

} // verus!
