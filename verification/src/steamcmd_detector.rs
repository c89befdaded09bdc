//! Finding a SteamCMD installation.
//!
//! Whether a file exists and its permission bits are read by the caller;
//! here are the places looked at, in order, and what makes a file a usable
//! SteamCMD.
use vstd::prelude::*;
use crate::paths::{path_join, spec_path_join};
use crate::text::{split_char, split_on, str_chars, strings_view};

verus! {

/// Common SteamCMD installation paths, in the order they are tried.
pub open spec fn common_steamcmd_paths() -> Seq<Seq<char>> {
    seq![
        "steamcmd"@,
        ".steamcmd"@,
        ".local/bin/steamcmd"@,
        "/usr/local/bin/steamcmd"@,
        "/usr/bin/steamcmd"@,
        "/home/steam/steamcmd"@,
        "/opt/steamcmd/steamcmd"@,
        "C:\\steamcmd\\steamcmd.exe"@,
        "C:\\Program Files\\steamcmd\\steamcmd.exe"@,
        "C:\\Program Files (x86)\\steamcmd\\steamcmd.exe"@,
    ]
}

/// The common SteamCMD installation paths (see [`common_steamcmd_paths`]).
pub fn steamcmd_paths() -> (v: Vec<String>)
    ensures
        strings_view(v@) == common_steamcmd_paths(),
{
    let v = vec![
        String::from_str("steamcmd"),
        String::from_str(".steamcmd"),
        String::from_str(".local/bin/steamcmd"),
        String::from_str("/usr/local/bin/steamcmd"),
        String::from_str("/usr/bin/steamcmd"),
        String::from_str("/home/steam/steamcmd"),
        String::from_str("/opt/steamcmd/steamcmd"),
        String::from_str("C:\\steamcmd\\steamcmd.exe"),
        String::from_str("C:\\Program Files\\steamcmd\\steamcmd.exe"),
        String::from_str("C:\\Program Files (x86)\\steamcmd\\steamcmd.exe"),
    ];
    assert(strings_view(v@) =~= common_steamcmd_paths());
    v
}

/// Whether permission bits let someone execute the file: any of the three
/// execute bits (`0o111`) is set.
pub open spec fn mode_is_executable(mode: u32) -> bool {
    mode & 0o111u32 != 0
}

/// Whether a file with these permission bits is executable.
pub fn is_executable_mode(mode: u32) -> (r: bool)
    ensures
        r == mode_is_executable(mode),
{
    mode & 0o111 != 0
}

/// Whether a path is a usable SteamCMD, from what was observed of it:
/// `exists` is whether something exists there, `mode` its permission bits
/// when its metadata could be read. It must exist and be executable.
pub open spec fn steamcmd_usable(exists: bool, mode: Option<u32>) -> bool {
    exists && match mode {
        Some(m) => mode_is_executable(m),
        None => false,
    }
}

/// Validates that a path is a valid SteamCMD installation, from what was
/// observed of it (see [`steamcmd_usable`]).
pub fn validate_steamcmd(exists: bool, mode: Option<u32>) -> (r: bool)
    ensures
        r == steamcmd_usable(exists, mode),
{
    if !exists {
        return false;
    }
    match mode {
        Some(m) => is_executable_mode(m),
        None => false,
    }
}

/// Every place SteamCMD is looked for, in order: the common paths, then
/// `steamcmd` in each directory of the `PATH` value (split at `:`), when
/// there is one.
pub open spec fn steamcmd_search_list(path_var: Option<Seq<char>>) -> Seq<Seq<char>> {
    common_steamcmd_paths() + match path_var {
        Some(p) => split_on(p, ':').map_values(|d: Seq<char>| spec_path_join(d, "steamcmd"@)),
        None => Seq::<Seq<char>>::empty(),
    }
}

/// The places SteamCMD is looked for (see [`steamcmd_search_list`]).
pub fn steamcmd_candidates(path_var: Option<&str>) -> (v: Vec<String>)
    ensures
        strings_view(v@) == steamcmd_search_list(
            match path_var {
                Some(p) => Some(p@),
                None => None,
            },
        ),
{
    let mut v = steamcmd_paths();
    match path_var {
        Some(p) => {
            let chars = str_chars(p);
            let dirs = split_char(&chars, ':');
            let ghost head = strings_view(v@);
            let ghost tail = split_on(p@, ':').map_values(|d: Seq<char>| spec_path_join(d, "steamcmd"@));
            let mut i: usize = 0;
            while i < dirs.len()
                invariant
                    i <= dirs@.len(),
                    dirs@.len() == split_on(p@, ':').len(),
                    forall|k: int| 0 <= k < dirs@.len() ==> #[trigger] dirs@[k]@ == split_on(p@, ':')[k],
                    tail == split_on(p@, ':').map_values(|d: Seq<char>| spec_path_join(d, "steamcmd"@)),
                    strings_view(v@) == head + tail.take(i as int),
                decreases dirs.len() - i,
            {
                let dir = crate::text::chars_to_string(&dirs[i]);
                let candidate = path_join(dir.as_str(), "steamcmd");
                let ghost prev = v@;
                v.push(candidate);
                assert(strings_view(v@) =~= strings_view(prev).push(candidate@));
                assert(tail.take(i + 1) =~= tail.take(i as int).push(tail[i as int]));
                i = i + 1;
            }
            assert(tail.take(i as int) =~= tail);
        },
        None => {
            assert(strings_view(v@) =~= common_steamcmd_paths() + Seq::<Seq<char>>::empty());
        },
    }
    v
}

/// The first usable place among those observed (see [`steamcmd_usable`]),
/// each observation being whether it exists and its permission bits.
pub fn first_usable_candidate(probes: &Vec<(bool, Option<u32>)>) -> (r: Option<usize>)
    ensures
        r matches Some(i) ==> i < probes@.len() && steamcmd_usable(probes@[i as int].0, probes@[i as int].1)
            && forall|j: int| 0 <= j < i ==> !steamcmd_usable(#[trigger] probes@[j].0, probes@[j].1),
        r is None ==> forall|j: int| 0 <= j < probes@.len() ==> !steamcmd_usable(#[trigger] probes@[j].0, probes@[j].1),
{
    let mut i: usize = 0;
    while i < probes.len()
        invariant
            i <= probes@.len(),
            forall|j: int| 0 <= j < i ==> !steamcmd_usable(#[trigger] probes@[j].0, probes@[j].1),
        decreases probes.len() - i,
    {
        if validate_steamcmd(probes[i].0, probes[i].1) {
            return Some(i);
        }
        i = i + 1;
    }
    None
}

} // verus!
