//! Build IDs of an ARK server installation, read from SteamCMD output.
use vstd::prelude::*;
use crate::regex_text::{group, group_of, regex_captures, spec_regex_captures};
use crate::text::{chars_to_string, lines, parse_u64, parse_u64_chars, split_lines, str_chars};

verus! {

/// Build ID information.
#[derive(Clone, Copy, Debug)]
pub struct BuildIdInfo {
    /// Current installed build ID.
    pub current_build: Option<u64>,
    /// Available build ID from Steam.
    pub available_build: Option<u64>,
    /// Whether an update is available.
    pub update_available: bool,
}

impl BuildIdInfo {
    /// Whether an update is needed: whether one is available.
    pub fn needs_update(&self) -> (r: bool)
        ensures
            r == self.update_available,
    {
        self.update_available
    }
}

/// The pattern of a build id in SteamCMD output: `Build ID:`, optional
/// whitespace, then the digits (captured).
pub open spec fn build_id_pattern() -> Seq<char> {
    "Build ID:\\s*(\\d+)"@
}

/// What the build id pattern captures in a line (see
/// [`spec_regex_captures`]).
pub open spec fn line_captures(l: Seq<char>) -> Option<Seq<Option<Seq<char>>>> {
    spec_regex_captures(build_id_pattern(), l)
}

/// The build id a line reports: its captured digits, when they are a `u64`.
pub open spec fn line_build(l: Seq<char>) -> Option<u64> {
    match group_of(line_captures(l), 1) {
        Some(c) => parse_u64(c),
        None => None,
    }
}

/// Whether every line that matches the build id pattern captures digits that
/// fit a `u64`.
pub open spec fn build_ids_parse(output: Seq<char>) -> bool {
    forall|i: int|
        0 <= i < lines(output).len() ==> (#[trigger] line_captures(lines(output)[i]) is Some ==> line_build(
            lines(output)[i],
        ) is Some)
}

/// The build ids reported by a sequence of lines, in order.
pub open spec fn builds_of_lines(ls: Seq<Seq<char>>) -> Seq<u64>
    decreases ls.len(),
{
    if ls.len() == 0 {
        seq![]
    } else {
        builds_of_lines(ls.drop_last()) + match line_build(ls.last()) {
            Some(b) => seq![b],
            None => Seq::<u64>::empty(),
        }
    }
}

/// The build ids reported by SteamCMD output, in order.
pub open spec fn reported_builds(output: Seq<char>) -> Seq<u64> {
    builds_of_lines(lines(output))
}

/// The captures of the build id pattern in a line, and the line's build id.
fn line_match(l: &Vec<char>) -> (r: (bool, Option<u64>))
    ensures
        r.0 == line_captures(l@) is Some,
        r.1 == line_build(l@),
{
    let text = chars_to_string(l);
    let caps = regex_captures("Build ID:\\s*(\\d+)", text.as_str());
    let build = match group(&caps, 1) {
        Some(c) => parse_u64_chars(&str_chars(c.as_str())),
        None => None,
    };
    (caps.is_some(), build)
}

/// Reads the build ids from the output of `app_update 376030 -checksrc`:
/// each line that matches `Build ID:\s*(\d+)` (see [`build_id_pattern`])
/// reports the number it captures; the current build is the first reported
/// and the available build the last, and an update is available when both
/// are known and differ.
pub fn parse_build_ids(output: &str) -> (info: BuildIdInfo)
    requires
        build_ids_parse(output@),
    ensures
        reported_builds(output@).len() == 0 ==> info.current_build is None
            && info.available_build is None,
        reported_builds(output@).len() > 0 ==> info.current_build == Some(
            reported_builds(output@)[0],
        ) && info.available_build == Some(reported_builds(output@).last()),
        info.update_available == (match (info.current_build, info.available_build) {
            (Some(c), Some(a)) => c != a,
            _ => false,
        }),
{
    let text = str_chars(output);
    let ls = split_lines(&text);
    let ghost all = lines(output@);
    let mut current_build: Option<u64> = None;
    let mut available_build: Option<u64> = None;
    let mut i: usize = 0;
    while i < ls.len()
        invariant
            i <= ls@.len() == all.len(),
            all == lines(output@),
            forall|k: int| 0 <= k < ls@.len() ==> #[trigger] ls@[k]@ == all[k],
            build_ids_parse(output@),
            builds_of_lines(all.take(i as int)).len() == 0 ==> current_build is None
                && available_build is None,
            builds_of_lines(all.take(i as int)).len() > 0 ==> current_build == Some(
                builds_of_lines(all.take(i as int))[0],
            ) && available_build == Some(builds_of_lines(all.take(i as int)).last()),
        decreases ls.len() - i,
    {
        assert(all.take(i + 1).drop_last() =~= all.take(i as int));
        assert(all.take(i + 1).last() == all[i as int]);
        let ghost prev = builds_of_lines(all.take(i as int));
        let (matched, b) = line_match(&ls[i]);
        assert(ls@[i as int]@ == all[i as int]);
        if matched {
            assert(line_captures(all[i as int]) is Some);
            let build = match b {
                Some(v) => v,
                None => {
                    assert(false);
                    0
                },
            };
            assert(builds_of_lines(all.take(i + 1)) =~= prev.push(build));
            if current_build.is_none() {
                current_build = Some(build);
            }
            available_build = Some(build);
        } else {
            assert(line_build(all[i as int]) is None);
            assert(builds_of_lines(all.take(i + 1)) =~= prev);
        }
        i = i + 1;
    }
    assert(all.take(ls.len() as int) =~= all);
    let update_available = match (current_build, available_build) {
        (Some(current), Some(available)) => current != available,
        _ => false,
    };
    BuildIdInfo { current_build, available_build, update_available }
}

/// The build ids that output reports (see [`parse_build_ids`]).
pub open spec fn build_info_of(output: Seq<char>, info: BuildIdInfo) -> bool {
    &&& reported_builds(output).len() == 0 ==> info.current_build is None
        && info.available_build is None
    &&& reported_builds(output).len() > 0 ==> info.current_build == Some(reported_builds(output)[0])
        && info.available_build == Some(reported_builds(output).last())
    &&& info.update_available == (match (info.current_build, info.available_build) {
        (Some(c), Some(a)) => c != a,
        _ => false,
    })
}

/// Reads the build ids of a build check's output when every reported id fits
/// a `u64` (see [`parse_build_ids`]); `None` otherwise.
pub fn read_build_ids(output: &str) -> (r: Option<BuildIdInfo>)
    ensures
        !build_ids_parse(output@) ==> r is None,
        build_ids_parse(output@) ==> (r matches Some(info) && build_info_of(output@, info)),
{
    if build_ids_parse_ok(output) {
        Some(parse_build_ids(output))
    } else {
        None
    }
}

/// The build id that `app_status 376030` output reports: what the first
/// line matching the build id pattern captures, as a `u64` (`None` when it
/// is not one or no line matches).
pub open spec fn first_reported_build(ls: Seq<Seq<char>>) -> Option<u64>
    decreases ls.len(),
{
    if ls.len() == 0 {
        None
    } else if line_captures(ls[0]) is Some {
        line_build(ls[0])
    } else {
        first_reported_build(ls.drop_first())
    }
}

/// Reads the current build id from `app_status` output (see
/// [`first_reported_build`]).
pub fn parse_current_build_id(output: &str) -> (r: Option<u64>)
    ensures
        r == first_reported_build(lines(output@)),
{
    let text = str_chars(output);
    let ls = split_lines(&text);
    let ghost all = lines(output@);
    assert(all.skip(0) =~= all);
    let mut i: usize = 0;
    while i < ls.len()
        invariant
            i <= ls@.len() == all.len(),
            all == lines(output@),
            forall|k: int| 0 <= k < ls@.len() ==> #[trigger] ls@[k]@ == all[k],
            first_reported_build(all) == first_reported_build(all.skip(i as int)),
        decreases ls.len() - i,
    {
        assert(all.skip(i as int)[0] == all[i as int]);
        assert(all.skip(i as int).drop_first() =~= all.skip(i + 1));
        assert(ls@[i as int]@ == all[i as int]);
        let (matched, b) = line_match(&ls[i]);
        if matched {
            return b;
        }
        i = i + 1;
    }
    None
}

/// Whether every build id that SteamCMD output reports fits a `u64` (see
/// [`build_ids_parse`]).
pub fn build_ids_parse_ok(output: &str) -> (r: bool)
    ensures
        r == build_ids_parse(output@),
{
    let text = str_chars(output);
    let ls = split_lines(&text);
    let ghost all = lines(output@);
    let mut i: usize = 0;
    while i < ls.len()
        invariant
            i <= ls@.len() == all.len(),
            all == lines(output@),
            forall|k: int| 0 <= k < ls@.len() ==> #[trigger] ls@[k]@ == all[k],
            forall|k: int|
                0 <= k < i ==> (#[trigger] line_captures(all[k]) is Some ==> line_build(all[k]) is Some),
        decreases ls.len() - i,
    {
        assert(ls@[i as int]@ == all[i as int]);
        let (matched, b) = line_match(&ls[i]);
        if matched && b.is_none() {
            assert(line_captures(all[i as int]) is Some);
            return false;
        }
        i = i + 1;
    }
    true
}

} // verus!
