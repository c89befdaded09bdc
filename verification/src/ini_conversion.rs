//! ARK INI settings and profiles.
//!
//! ARK stores settings in two INI files: `Game.ini` (server settings: map,
//! difficulty, max players) and `GameUserSettings.ini` (admin password,
//! port). The INI text is parsed and written by `configparser`; here is what
//! each file's values do to a profile, and which values a profile writes
//! back.
use vstd::prelude::*;
use crate::profile::{is_default_profile, unique_keys, Profile, PROFILE_SCHEMA_VERSION};
use crate::ini_file::{
    casefold, distinct_keys, empty_ini, find_section, find_value, ini_new, ini_read, ini_set, ini_writes,
    lemma_keyed, section_of, section_pairs, section_view, sections_view, set_in, spec_ini_contents, written_ini,
    spec_ini_read, value_of,
};
use configparser::ini::Ini;
use crate::paths::opt_view;
use crate::text::{
    chars_to_string, decimal, decimal_chars, extend_with_str, parse_u64, parse_u64_chars, str_chars, str_eq,
};

verus! {

/// Section of Game.ini that holds the server settings.
pub const SECTION_SERVER_SETTINGS: &'static str = "/script/shootergame/shootreplicationlibrary";

/// Key of the session name.
pub const SECTION_SESSION_NAME: &'static str = "SessionName";

/// Section of GameUserSettings.ini that holds the user settings.
pub const SECTION_GAME_USER_SETTINGS: &'static str = "GameUserSettings";

/// Section of ARK-specific settings.
pub const SECTION_AKSETTINGS: &'static str = "Aksettings";

// ---------------------------------------------------------------------------
// Profile names from directory names
// ---------------------------------------------------------------------------

/// What `char::is_alphanumeric` returns for a character (alphabetic or
/// numeric by the Unicode tables).
pub uninterp spec fn spec_is_alphanumeric(c: char) -> bool;

/// `char::is_alphanumeric`: whether the character is alphabetic or numeric
/// by the Unicode tables; named by [`spec_is_alphanumeric`].
#[verifier::external_body]
fn char_is_alphanumeric(c: char) -> (r: bool)
    ensures
        r == spec_is_alphanumeric(c),
{
    c.is_alphanumeric()
}

/// A character of a file-safe name: alphanumeric characters, space, `-`
/// and `_` stay; every other character becomes `_`.
pub open spec fn filename_char(c: char) -> char {
    if spec_is_alphanumeric(c) || c == ' ' || c == '-' || c == '_' {
        c
    } else {
        '_'
    }
}

/// A name made file-safe, character by character (see [`filename_char`]).
pub open spec fn sanitized_name(s: Seq<char>) -> Seq<char> {
    s.map_values(|c: char| filename_char(c))
}

/// Sanitizes a profile name to be filename-safe (see [`sanitized_name`]).
pub fn sanitize_name_for_filename(name: &str) -> (s: String)
    ensures
        s@ == sanitized_name(name@),
{
    let chars = str_chars(name);
    let mut out: Vec<char> = Vec::new();
    let mut i: usize = 0;
    while i < chars.len()
        invariant
            i <= chars@.len(),
            out@ == sanitized_name(chars@.take(i as int)),
        decreases chars.len() - i,
    {
        let c = chars[i];
        let keep = char_is_alphanumeric(c) || c == ' ' || c == '-' || c == '_';
        out.push(if keep { c } else { '_' });
        assert(sanitized_name(chars@.take(i + 1)) =~= sanitized_name(chars@.take(i as int)).push(
            filename_char(c),
        ));
        i = i + 1;
    }
    assert(chars@.take(i as int) =~= chars@);
    chars_to_string(&out)
}

/// The name of a profile read from an INI directory: the directory's name
/// (`Unnamed` when it has none) made file-safe.
pub fn ini_profile_name(dir_name: Option<String>) -> (s: String)
    ensures
        s@ == sanitized_name(
            match dir_name {
                Some(n) => n@,
                None => "Unnamed"@,
            },
        ),
{
    match dir_name {
        Some(n) => sanitize_name_for_filename(n.as_str()),
        None => sanitize_name_for_filename("Unnamed"),
    }
}

// ---------------------------------------------------------------------------
// Extra settings as key/value pairs
// ---------------------------------------------------------------------------

/// The settings as a map from key to value.
pub open spec fn settings_map(v: Seq<(String, String)>) -> Map<Seq<char>, Seq<char>>
    decreases v.len(),
{
    if v.len() == 0 {
        Map::empty()
    } else {
        settings_map(v.drop_last()).insert(v.last().0@, v.last().1@)
    }
}

proof fn lemma_settings_map_update(v: Seq<(String, String)>, i: int, x: (String, String))
    requires
        unique_keys(v),
        0 <= i < v.len(),
        x.0@ == v[i].0@,
    ensures
        settings_map(v.update(i, x)) == settings_map(v).insert(x.0@, x.1@),
    decreases v.len(),
{
    let w = v.update(i, x);
    assert(w.drop_last() =~= if i == v.len() - 1 { v.drop_last() } else { v.drop_last().update(i, x) });
    if i < v.len() - 1 {
        assert(unique_keys(v.drop_last()));
        lemma_settings_map_update(v.drop_last(), i, x);
        assert(v.last().0@ != v[i].0@);
        assert(settings_map(w) =~= settings_map(v).insert(x.0@, x.1@));
    } else {
        assert(settings_map(w) =~= settings_map(v).insert(x.0@, x.1@));
    }
}

/// Sets a setting: replaces the value of its key, or adds the pair.
pub fn set_setting(settings: &mut Vec<(String, String)>, key: String, value: String)
    requires
        unique_keys(old(settings)@),
    ensures
        unique_keys(final(settings)@),
        settings_map(final(settings)@) == settings_map(old(settings)@).insert(key@, value@),
{
    let mut i: usize = 0;
    while i < settings.len()
        invariant
            i <= settings@.len(),
            settings@ == old(settings)@,
            unique_keys(old(settings)@),
            forall|j: int| 0 <= j < i ==> (#[trigger] settings@[j]).0@ != key@,
        decreases settings.len() - i,
    {
        if str_eq(settings[i].0.as_str(), key.as_str()) {
            let ghost before = settings@;
            let k2 = key.clone();
            settings.set(i, (k2, value));
            proof {
                lemma_settings_map_update(before, i as int, settings@[i as int]);
                assert(settings@ == before.update(i as int, settings@[i as int]));
                assert forall|a: int, b: int| 0 <= a < b < settings@.len() implies (#[trigger] settings@[a]).0@
                    != (#[trigger] settings@[b]).0@ by {
                    assert(settings@[a].0@ == before[a].0@);
                    assert(settings@[b].0@ == before[b].0@);
                }
            }
            return;
        }
        i = i + 1;
    }
    let ghost before = settings@;
    settings.push((key, value));
    proof {
        assert(settings@.drop_last() =~= before);
        assert forall|a: int, b: int| 0 <= a < b < settings@.len() implies (#[trigger] settings@[a]).0@
            != (#[trigger] settings@[b]).0@ by {
            if b == settings@.len() - 1 {
                assert(before[a].0@ != key@);
            }
        }
    }
}

/// Two characters are equal when ASCII letters are compared without case.
pub open spec fn char_eq_ignore_case(a: char, b: char) -> bool {
    ||| a == b
    ||| ('A' <= a && a <= 'Z' && (a as int) + 32 == (b as int))
    ||| ('A' <= b && b <= 'Z' && (b as int) + 32 == (a as int))
}

/// Two texts are equal when ASCII letters are compared without case.
pub open spec fn eq_ignore_case(a: Seq<char>, b: Seq<char>) -> bool {
    &&& a.len() == b.len()
    &&& forall|i: int| 0 <= i < a.len() ==> char_eq_ignore_case(#[trigger] a[i], b[i])
}

/// Whether a key is one of the given keys, compared without case.
pub open spec fn is_listed_key(keys: Seq<Seq<char>>, k: Seq<char>) -> bool {
    exists|j: int| 0 <= j < keys.len() && eq_ignore_case(#[trigger] keys[j], k)
}

/// The settings after a section's raw values are merged in, pair by pair:
/// each key of the section that is not excluded (compared without case) and
/// has a value sets that value.
pub open spec fn merged_settings(
    m: Map<Seq<char>, Seq<char>>,
    section: Seq<(String, Option<String>)>,
    excluded: Seq<Seq<char>>,
) -> Map<Seq<char>, Seq<char>>
    decreases section.len(),
{
    if section.len() == 0 {
        m
    } else {
        let prev = merged_settings(m, section.drop_last(), excluded);
        let (k, v) = section.last();
        if is_listed_key(excluded, k@) {
            prev
        } else {
            match v {
                Some(val) => prev.insert(k@, val@),
                None => prev,
            }
        }
    }
}

/// Whether a section's key sets a setting when merged: it is not excluded
/// (compared without case) and has a value.
pub open spec fn merges_key(
    section: Map<Seq<char>, Option<Seq<char>>>,
    excluded: Seq<Seq<char>>,
    k: Seq<char>,
) -> bool {
    section.contains_key(k) && !is_listed_key(excluded, k) && section[k] is Some
}

/// The settings after a section's values are merged in: each key of the
/// section that is not excluded (compared without case) and has a value sets
/// that value; the other settings stay.
pub open spec fn merge_section_map(
    m: Map<Seq<char>, Seq<char>>,
    section: Map<Seq<char>, Option<Seq<char>>>,
    excluded: Seq<Seq<char>>,
) -> Map<Seq<char>, Seq<char>> {
    Map::new(
        |k: Seq<char>| m.contains_key(k) || merges_key(section, excluded, k),
        |k: Seq<char>|
            if merges_key(section, excluded, k) {
                section[k]->Some_0
            } else {
                m[k]
            },
    )
}

/// Merging a section pair by pair, when its keys are distinct, gives the
/// merge of the section's map.
pub proof fn lemma_merged_settings_map(
    m: Map<Seq<char>, Seq<char>>,
    section: Seq<(String, Option<String>)>,
    excluded: Seq<Seq<char>>,
)
    requires
        distinct_keys(section_pairs(section)),
    ensures
        merged_settings(m, section, excluded) == merge_section_map(m, section_view(section), excluded),
    decreases section.len(),
{
    if section.len() == 0 {
        assert(section_view(section) =~= Map::<Seq<char>, Option<Seq<char>>>::empty());
        assert(merge_section_map(m, section_view(section), excluded) =~= m);
    } else {
        let w = section.drop_last();
        assert(section_pairs(section).drop_last() =~= section_pairs(w));
        assert(distinct_keys(section_pairs(w)));
        lemma_merged_settings_map(m, w, excluded);
        lemma_keyed(section_pairs(w));
        let last = section.last();
        let pairs = section_pairs(section);
        assert(pairs.last() == (last.0@, opt_view(last.1)));
        assert(!section_view(w).contains_key(last.0@)) by {
            if section_view(w).contains_key(last.0@) {
                let i = choose|i: int| 0 <= i < section_pairs(w).len() && section_pairs(w)[i].0 == last.0@;
                assert(pairs[i] == section_pairs(w)[i]);
                assert(pairs[i].0 != pairs[pairs.len() - 1].0);
            }
        }
        assert(section_view(section) == section_view(w).insert(last.0@, opt_view(last.1)));
        let prev = merge_section_map(m, section_view(w), excluded);
        let now = merge_section_map(m, section_view(section), excluded);
        if is_listed_key(excluded, last.0@) {
            assert(now =~= prev);
        } else {
            match last.1 {
                Some(val) => {
                    assert(now =~= prev.insert(last.0@, val@));
                },
                None => {
                    assert(now =~= prev);
                },
            }
        }
    }
}

/// Typed keys are never stored as extra settings: merging a section leaves
/// the setting of a key that is one of the excluded keys (in any case) as it
/// was, present or absent.
pub proof fn law_excluded_keys_not_merged(
    m: Map<Seq<char>, Seq<char>>,
    section: Map<Seq<char>, Option<Seq<char>>>,
    excluded: Seq<Seq<char>>,
    k: Seq<char>,
)
    requires
        is_listed_key(excluded, k),
    ensures
        merge_section_map(m, section, excluded).contains_key(k) == m.contains_key(k),
        m.contains_key(k) ==> merge_section_map(m, section, excluded)[k] == m[k],
{
}

fn char_eq_ignore_case_exec(a: char, b: char) -> (r: bool)
    ensures
        r == char_eq_ignore_case(a, b),
{
    a == b || ('A' <= a && a <= 'Z' && (a as u32) + 32 == (b as u32)) || ('A' <= b && b <= 'Z' && (b as u32)
        + 32 == (a as u32))
}

/// Whether two texts are equal when ASCII letters are compared without case
/// (see [`eq_ignore_case`]).
pub fn str_eq_ignore_case(a: &str, b: &str) -> (r: bool)
    ensures
        r == eq_ignore_case(a@, b@),
{
    let av = str_chars(a);
    let bv = str_chars(b);
    if av.len() != bv.len() {
        return false;
    }
    let mut i: usize = 0;
    while i < av.len()
        invariant
            i <= av@.len(),
            av@ == a@,
            bv@ == b@,
            av@.len() == bv@.len(),
            forall|j: int| 0 <= j < i ==> char_eq_ignore_case(#[trigger] av@[j], bv@[j]),
        decreases av.len() - i,
    {
        if !char_eq_ignore_case_exec(av[i], bv[i]) {
            return false;
        }
        i = i + 1;
    }
    true
}

fn is_excluded(key: &str, excluded: &Vec<String>) -> (r: bool)
    ensures
        r == is_listed_key(excluded@.map_values(|s: String| s@), key@),
{
    let ghost ex = excluded@.map_values(|s: String| s@);
    let mut i: usize = 0;
    while i < excluded.len()
        invariant
            i <= excluded@.len(),
            ex == excluded@.map_values(|s: String| s@),
            forall|j: int| 0 <= j < i ==> !eq_ignore_case(#[trigger] ex[j], key@),
        decreases excluded.len() - i,
    {
        if str_eq_ignore_case(excluded[i].as_str(), key) {
            assert(eq_ignore_case(ex[i as int], key@));
            return true;
        }
        i = i + 1;
    }
    false
}

/// Merges a section's raw values into the settings (see
/// [`merged_settings`]).
pub fn merge_section(settings: &mut Vec<(String, String)>, section: &Vec<(String, Option<String>)>, excluded: &Vec<String>)
    requires
        unique_keys(old(settings)@),
    ensures
        unique_keys(final(settings)@),
        settings_map(final(settings)@) == merged_settings(
            settings_map(old(settings)@),
            section@,
            excluded@.map_values(|s: String| s@),
        ),
{
    let ghost start = settings_map(settings@);
    let ghost ex = excluded@.map_values(|s: String| s@);
    let mut i: usize = 0;
    while i < section.len()
        invariant
            i <= section@.len(),
            unique_keys(settings@),
            start == settings_map(old(settings)@),
            ex == excluded@.map_values(|s: String| s@),
            settings_map(settings@) == merged_settings(start, section@.take(i as int), ex),
        decreases section.len() - i,
    {
        assert(section@.take(i + 1).drop_last() =~= section@.take(i as int));
        assert(section@.take(i + 1).last() == section@[i as int]);
        let (k, v) = (&section[i].0, &section[i].1);
        if !is_excluded(k.as_str(), excluded) {
            match v {
                Some(val) => set_setting(settings, k.clone(), val.clone()),
                None => {},
            }
        }
        i = i + 1;
    }
    assert(section@.take(i as int) =~= section@);
}

// ---------------------------------------------------------------------------
// Typed values
// ---------------------------------------------------------------------------

/// `u32::from_str`: an optional `+`, then ASCII digits whose value fits in a
/// `u32`.
pub open spec fn parse_u32(s: Seq<char>) -> Option<u32> {
    match parse_u64(s) {
        Some(v) => if v <= u32::MAX {
            Some(v as u32)
        } else {
            None
        },
        None => None,
    }
}

fn parse_u32_str(s: &str) -> (r: Option<u32>)
    ensures
        r == parse_u32(s@),
{
    let chars = str_chars(s);
    match parse_u64_chars(&chars) {
        Some(v) => if v <= u32::MAX as u64 {
            Some(v as u32)
        } else {
            None
        },
        None => None,
    }
}

/// Whether a profile is the one INI values are read into: the given base at
/// the current schema version, or (without a base) a default profile.
pub open spec fn ini_start(base: Option<Profile>, q: Profile) -> bool {
    match base {
        Some(b) => q == (Profile { schema_version: PROFILE_SCHEMA_VERSION, ..b }),
        None => is_default_profile(q) && q.wf(),
    }
}

/// A profile to read INI values into (see [`ini_start`]).
pub fn ini_base_profile(base: Option<Profile>) -> (p: Profile)
    ensures
        ini_start(base, p),
        p.schema_version == PROFILE_SCHEMA_VERSION,
{
    let mut p = match base {
        Some(b) => b,
        None => Profile::default(),
    };
    p.schema_version = PROFILE_SCHEMA_VERSION;
    p
}

/// The raw keys of Game.ini's server settings that have typed fields.
pub open spec fn game_typed_keys() -> Seq<Seq<char>> {
    seq!["DifficultyOffset"@, "MaxPlayers"@, "Akset_MapName"@]
}

/// The raw keys of GameUserSettings.ini that have typed fields.
pub open spec fn user_typed_keys() -> Seq<Seq<char>> {
    seq!["AdminPassword"@, "QueryPort"@]
}

fn names_of(a: &str, b: &str, c: Option<&str>) -> (v: Vec<String>)
    ensures
        v@.map_values(|s: String| s@) == match c {
            Some(x) => seq![a@, b@, x@],
            None => seq![a@, b@],
        },
{
    let mut v: Vec<String> = Vec::new();
    v.push(String::from_str(a));
    v.push(String::from_str(b));
    match c {
        Some(x) => {
            v.push(String::from_str(x));
            assert(v@.map_values(|s: String| s@) =~= seq![a@, b@, x@]);
        },
        None => {
            assert(v@.map_values(|s: String| s@) =~= seq![a@, b@]);
        },
    }
    v
}

/// Applies the values of Game.ini's server settings to a profile: a
/// `MaxPlayers` value that is a `u32` sets the maximum, an `Akset_MapName`
/// value sets the map, and the section's other raw values are merged into
/// the extra settings. (The difficulty is read by the caller.)
pub fn apply_game_ini(
    profile: &mut Profile,
    max_players: Option<&str>,
    map_name: Option<String>,
    section: &Vec<(String, Option<String>)>,
)
    requires
        old(profile).wf(),
    ensures
        final(profile).wf(),
        final(profile).max_players == match max_players {
            Some(m) => match parse_u32(m@) {
                Some(v) => v,
                None => old(profile).max_players,
            },
            None => old(profile).max_players,
        },
        final(profile).map == match map_name {
            Some(m) => m,
            None => old(profile).map,
        },
        settings_map(final(profile).extra_settings@) == merged_settings(
            settings_map(old(profile).extra_settings@),
            section@,
            game_typed_keys(),
        ),
        *final(profile) == (Profile {
            max_players: final(profile).max_players,
            map: final(profile).map,
            extra_settings: final(profile).extra_settings,
            ..*old(profile)
        }),
{
    match max_players {
        Some(m) => match parse_u32_str(m) {
            Some(v) => profile.max_players = v,
            None => {},
        },
        None => {},
    }
    match map_name {
        Some(m) => profile.map = m,
        None => {},
    }
    let excluded = names_of("DifficultyOffset", "MaxPlayers", Some("Akset_MapName"));
    proof {
        reveal_strlit("DifficultyOffset");
        reveal_strlit("MaxPlayers");
        reveal_strlit("Akset_MapName");
    }
    merge_section(&mut profile.extra_settings, section, &excluded);
}

/// Applies the values of GameUserSettings.ini to a profile: an
/// `AdminPassword` value sets the password, a `QueryPort` value that is a
/// `u32` sets the port, and the section's other raw values are merged into
/// the extra user settings.
pub fn apply_user_ini(
    profile: &mut Profile,
    admin_password: Option<String>,
    query_port: Option<&str>,
    section: &Vec<(String, Option<String>)>,
)
    requires
        old(profile).wf(),
    ensures
        final(profile).wf(),
        final(profile).admin_password == match admin_password {
            Some(p) => Some(p),
            None => old(profile).admin_password,
        },
        final(profile).port == match query_port {
            Some(q) => match parse_u32(q@) {
                Some(v) => v,
                None => old(profile).port,
            },
            None => old(profile).port,
        },
        settings_map(final(profile).extra_user_settings@) == merged_settings(
            settings_map(old(profile).extra_user_settings@),
            section@,
            user_typed_keys(),
        ),
        *final(profile) == (Profile {
            admin_password: final(profile).admin_password,
            port: final(profile).port,
            extra_user_settings: final(profile).extra_user_settings,
            ..*old(profile)
        }),
{
    match admin_password {
        Some(p) => profile.admin_password = Some(p),
        None => {},
    }
    match query_port {
        Some(q) => match parse_u32_str(q) {
            Some(v) => profile.port = v,
            None => {},
        },
        None => {},
    }
    let excluded = names_of("AdminPassword", "QueryPort", None);
    proof {
        reveal_strlit("AdminPassword");
        reveal_strlit("QueryPort");
    }
    merge_section(&mut profile.extra_user_settings, section, &excluded);
}

// ---------------------------------------------------------------------------
// Reading an INI text into a profile
// ---------------------------------------------------------------------------

/// The name the parser gives Game.ini's server settings section.
pub open spec fn server_section_key() -> Seq<char> {
    "/script/shootergame/shootreplicationlibrary"@
}

/// The name the parser gives GameUserSettings.ini's section (lowercased).
pub open spec fn user_section_key() -> Seq<char> {
    "gameusersettings"@
}

/// A profile with Game.ini's server settings applied: a `MaxPlayers` value
/// that is a `u32` sets the maximum players, an `Akset_MapName` value sets
/// the map, the section's other values are merged into the extra settings
/// (see [`merge_section_map`]), and every other field stays.
pub open spec fn game_values_applied(q: Profile, sec: Map<Seq<char>, Option<Seq<char>>>, p: Profile) -> bool {
    &&& p.max_players == match value_of(sec, "maxplayers"@) {
        Some(m) => match parse_u32(m) {
            Some(v) => v,
            None => q.max_players,
        },
        None => q.max_players,
    }
    &&& p.map@ == match value_of(sec, "akset_mapname"@) {
        Some(m) => m,
        None => q.map@,
    }
    &&& settings_map(p.extra_settings@) == merge_section_map(
        settings_map(q.extra_settings@),
        sec,
        game_typed_keys(),
    )
    &&& p == (Profile {
        max_players: p.max_players,
        map: p.map,
        extra_settings: p.extra_settings,
        ..q
    })
    &&& p.wf()
}

/// A profile with GameUserSettings.ini's values applied: an `AdminPassword`
/// value sets the password, a `QueryPort` value that is a `u32` sets the
/// port, the section's other values are merged into the extra user settings
/// (see [`merge_section_map`]), and every other field stays.
pub open spec fn user_values_applied(q: Profile, sec: Map<Seq<char>, Option<Seq<char>>>, p: Profile) -> bool {
    &&& opt_view(p.admin_password) == match value_of(sec, "adminpassword"@) {
        Some(pw) => Some(pw),
        None => opt_view(q.admin_password),
    }
    &&& p.port == match value_of(sec, "queryport"@) {
        Some(v) => match parse_u32(v) {
            Some(n) => n,
            None => q.port,
        },
        None => q.port,
    }
    &&& settings_map(p.extra_user_settings@) == merge_section_map(
        settings_map(q.extra_user_settings@),
        sec,
        user_typed_keys(),
    )
    &&& p == (Profile {
        admin_password: p.admin_password,
        port: p.port,
        extra_user_settings: p.extra_user_settings,
        ..q
    })
    &&& p.wf()
}

/// What reading a parsed INI file into a profile gives: from the starting
/// profile (see [`ini_start`]), Game.ini's values applied when the file is
/// Game.ini (with its `DifficultyOffset` text handed back, for the caller to
/// read as a number), else GameUserSettings.ini's values (and no difficulty).
pub open spec fn ini_profile(
    base: Option<Profile>,
    ini: Map<Seq<char>, Map<Seq<char>, Option<Seq<char>>>>,
    game: bool,
    p: Profile,
    difficulty: Option<Seq<char>>,
) -> bool {
    exists|q: Profile|
        #[trigger] ini_start(base, q) && if game {
            &&& game_values_applied(q, section_of(ini, server_section_key()), p)
            &&& difficulty == value_of(section_of(ini, server_section_key()), "difficultyoffset"@)
        } else {
            &&& user_values_applied(q, section_of(ini, user_section_key()), p)
            &&& difficulty is None
        }
}

fn str_option(o: &Option<String>) -> (r: Option<&str>)
    ensures
        match o {
            Some(s) => r matches Some(t) && t@ == s@,
            None => r is None,
        },
{
    match o {
        Some(s) => Some(s.as_str()),
        None => None,
    }
}

/// Reads an ARK INI text into a profile, on top of `base` (or a default
/// profile): `ini_type` `"game"` reads Game.ini's server settings, any other
/// GameUserSettings.ini's settings (see [`ini_profile`]). The text is parsed
/// by `configparser` (see [`spec_ini_read`]); when it does not parse, the
/// error is `Failed to parse INI: ` and the parser's message. The
/// `DifficultyOffset` text of Game.ini is handed back unread.
pub fn ini_to_profile_values(ini_contents: &str, ini_type: &str, base: Option<Profile>) -> (r: Result<
    (Profile, Option<String>),
    String,
>)
    requires
        base matches Some(b) ==> b.wf(),
    ensures
        match spec_ini_read(ini_contents@) {
            Err(e) => r matches Err(m) && m@ == "Failed to parse INI: "@ + e,
            Ok(ini) => r matches Ok(res) && ini_profile(base, ini, ini_type@ == "game"@, res.0, opt_view(res.1)),
        },
{
    let parsed = ini_read(ini_contents);
    let sections = match parsed {
        Ok(v) => v,
        Err(e) => {
            let mut m: Vec<char> = Vec::new();
            extend_with_str(&mut m, "Failed to parse INI: ");
            extend_with_str(&mut m, e.as_str());
            return Err(chars_to_string(&m));
        },
    };
    let ghost ini = sections_view(sections@);
    let mut profile = ini_base_profile(base);
    let ghost q = profile;
    let empty: Vec<(String, Option<String>)> = Vec::new();
    proof {
        assert(section_view(empty@) =~= Map::<Seq<char>, Option<Seq<char>>>::empty());
    }
    if str_eq(ini_type, "game") {
        let sec: &Vec<(String, Option<String>)> = match find_section(
            &sections,
            "/script/shootergame/shootreplicationlibrary",
        ) {
            Some(s) => s,
            None => &empty,
        };
        assert(section_view(sec@) == section_of(ini, server_section_key()));
        let difficulty = find_value(sec, "difficultyoffset");
        let max_players = find_value(sec, "maxplayers");
        let map_name = find_value(sec, "akset_mapname");
        apply_game_ini(&mut profile, str_option(&max_players), map_name, sec);
        proof {
            lemma_merged_settings_map(settings_map(q.extra_settings@), sec@, game_typed_keys());
            assert(game_values_applied(q, section_of(ini, server_section_key()), profile));
            assert(ini_start(base, q));
        }
        Ok((profile, difficulty))
    } else {
        let sec: &Vec<(String, Option<String>)> = match find_section(&sections, "gameusersettings") {
            Some(s) => s,
            None => &empty,
        };
        assert(section_view(sec@) == section_of(ini, user_section_key()));
        let password = find_value(sec, "adminpassword");
        let port = find_value(sec, "queryport");
        apply_user_ini(&mut profile, password, str_option(&port), sec);
        proof {
            lemma_merged_settings_map(settings_map(q.extra_user_settings@), sec@, user_typed_keys());
            assert(user_values_applied(q, section_of(ini, user_section_key()), profile));
            assert(ini_start(base, q));
        }
        Ok((profile, None))
    }
}

// ---------------------------------------------------------------------------
// Values written back
// ---------------------------------------------------------------------------

/// The pairs of the settings, as texts.
pub open spec fn pairs_view(v: Seq<(String, String)>) -> Seq<(Seq<char>, Seq<char>)> {
    v.map_values(|p: (String, String)| (p.0@, p.1@))
}

/// The values a profile writes to Game.ini's server settings, in the order
/// they are set: the difficulty, the maximum players, the map, then the
/// extra settings.
pub open spec fn game_ini_values(p: Profile) -> Seq<(Seq<char>, Seq<char>)> {
    seq![
        ("DifficultyOffset"@, p.difficulty@),
        ("MaxPlayers"@, decimal(p.max_players as nat)),
        ("Akset_MapName"@, p.map@),
    ] + pairs_view(p.extra_settings@)
}

/// The values a profile writes to GameUserSettings.ini, in the order they
/// are set: the admin password when it is set and not empty, the query
/// port, then the extra user settings.
pub open spec fn user_ini_values(p: Profile) -> Seq<(Seq<char>, Seq<char>)> {
    (match p.admin_password {
        Some(pw) => if pw@.len() > 0 {
            seq![("AdminPassword"@, pw@)]
        } else {
            Seq::empty()
        },
        None => Seq::empty(),
    }) + seq![("QueryPort"@, decimal(p.port as nat))] + pairs_view(p.extra_user_settings@)
}

fn push_pair(out: &mut Vec<(String, String)>, k: &str, v: String)
    ensures
        pairs_view(final(out)@) == pairs_view(old(out)@).push((k@, v@)),
{
    let ghost before = out@;
    out.push((String::from_str(k), v));
    assert(pairs_view(out@) =~= pairs_view(before).push((k@, v@)));
}

fn push_all(out: &mut Vec<(String, String)>, extra: &Vec<(String, String)>)
    ensures
        pairs_view(final(out)@) == pairs_view(old(out)@) + pairs_view(extra@),
{
    let ghost start = pairs_view(out@);
    let mut i: usize = 0;
    while i < extra.len()
        invariant
            i <= extra@.len(),
            pairs_view(out@) == start + pairs_view(extra@.take(i as int)),
        decreases extra.len() - i,
    {
        let ghost before = out@;
        out.push((extra[i].0.clone(), extra[i].1.clone()));
        assert(pairs_view(out@) =~= pairs_view(before).push((extra@[i as int].0@, extra@[i as int].1@)));
        assert(pairs_view(extra@.take(i + 1)) =~= pairs_view(extra@.take(i as int)).push(
            (extra@[i as int].0@, extra@[i as int].1@),
        ));
        i = i + 1;
    }
    assert(extra@.take(i as int) =~= extra@);
}

/// The values a profile writes to Game.ini (see [`game_ini_values`]).
pub fn game_ini_entries(profile: &Profile) -> (v: Vec<(String, String)>)
    ensures
        pairs_view(v@) == game_ini_values(*profile),
{
    let mut v: Vec<(String, String)> = Vec::new();
    push_pair(&mut v, "DifficultyOffset", profile.difficulty.clone());
    let digits = decimal_chars(profile.max_players as u64);
    push_pair(&mut v, "MaxPlayers", chars_to_string(&digits));
    push_pair(&mut v, "Akset_MapName", profile.map.clone());
    push_all(&mut v, &profile.extra_settings);
    assert(pairs_view(v@) =~= game_ini_values(*profile));
    v
}

/// The values a profile writes to GameUserSettings.ini (see
/// [`user_ini_values`]).
pub fn user_ini_entries(profile: &Profile) -> (v: Vec<(String, String)>)
    ensures
        pairs_view(v@) == user_ini_values(*profile),
{
    let mut v: Vec<(String, String)> = Vec::new();
    match &profile.admin_password {
        Some(pw) => {
            if str_chars(pw.as_str()).len() > 0 {
                push_pair(&mut v, "AdminPassword", pw.clone());
            }
        },
        None => {},
    }
    let digits = decimal_chars(profile.port as u64);
    push_pair(&mut v, "QueryPort", chars_to_string(&digits));
    push_all(&mut v, &profile.extra_user_settings);
    assert(pairs_view(v@) =~= user_ini_values(*profile));
    v
}

/// The configuration holding entries set in order in one section (see
/// [`set_in`] and [`casefold`]).
pub open spec fn ini_with(section: Seq<char>, entries: Seq<(Seq<char>, Seq<char>)>) -> Map<
    Seq<char>,
    Map<Seq<char>, Option<Seq<char>>>,
>
    decreases entries.len(),
{
    if entries.len() == 0 {
        empty_ini()
    } else {
        set_in(
            ini_with(section, entries.drop_last()),
            casefold(section),
            casefold(entries.last().0),
            Some(entries.last().1),
        )
    }
}

fn ini_of_entries(section: &str, entries: &Vec<(String, String)>) -> (ini: Ini)
    ensures
        spec_ini_contents(ini) == ini_with(section@, pairs_view(entries@)),
{
    let mut ini = ini_new();
    let ghost all = pairs_view(entries@);
    let mut i: usize = 0;
    while i < entries.len()
        invariant
            i <= entries@.len(),
            all == pairs_view(entries@),
            spec_ini_contents(ini) == ini_with(section@, all.take(i as int)),
        decreases entries.len() - i,
    {
        ini_set(&mut ini, section, entries[i].0.as_str(), Some(entries[i].1.clone()));
        assert(all.take(i + 1).drop_last() =~= all.take(i as int));
        assert(all.take(i + 1).last() == (entries@[i as int].0@, entries@[i as int].1@));
        i = i + 1;
    }
    assert(all.take(i as int) =~= all);
    ini
}

/// The configuration a profile's Game.ini holds: its values (see
/// [`game_ini_values`]) set in order in the server settings section.
pub fn game_ini(profile: &Profile) -> (ini: Ini)
    ensures
        spec_ini_contents(ini) == ini_with(SECTION_SERVER_SETTINGS@, game_ini_values(*profile)),
{
    let entries = game_ini_entries(profile);
    ini_of_entries(SECTION_SERVER_SETTINGS, &entries)
}

/// The configuration a profile's GameUserSettings.ini holds: its values (see
/// [`user_ini_values`]) set in order in the user settings section.
pub fn user_ini(profile: &Profile) -> (ini: Ini)
    ensures
        spec_ini_contents(ini) == ini_with(SECTION_GAME_USER_SETTINGS@, user_ini_values(*profile)),
{
    let entries = user_ini_entries(profile);
    ini_of_entries(SECTION_GAME_USER_SETTINGS, &entries)
}

/// Converts a profile into a Game.ini text: its configuration (see
/// [`game_ini`]) written by `configparser` (see [`written_ini`]).
pub fn profile_to_game_ini(profile: &Profile) -> (r: String)
    ensures
        written_ini(ini_with(SECTION_SERVER_SETTINGS@, game_ini_values(*profile)), r@),
{
    ini_writes(&game_ini(profile))
}

/// Converts a profile into a GameUserSettings.ini text: its configuration
/// (see [`user_ini`]) written by `configparser` (see [`written_ini`]).
pub fn profile_to_game_user_settings_ini(profile: &Profile) -> (r: String)
    ensures
        written_ini(ini_with(SECTION_GAME_USER_SETTINGS@, user_ini_values(*profile)), r@),
{
    ini_writes(&user_ini(profile))
}

/// Every extra setting of a profile is written to Game.ini, after the three
/// typed values and in order; every extra user setting is written to
/// GameUserSettings.ini, after the password (when set and not empty) and the
/// query port, in order.
pub proof fn law_extra_settings_written(p: Profile)
    ensures
        game_ini_values(p).len() == 3 + p.extra_settings@.len(),
        forall|i: int|
            0 <= i < p.extra_settings@.len() ==> #[trigger] game_ini_values(p)[3 + i] == (
                p.extra_settings@[i].0@,
                p.extra_settings@[i].1@,
            ),
        ({
            let fixed: int = if p.admin_password matches Some(pw) && pw@.len() > 0 { 2 } else { 1 };
            &&& user_ini_values(p).len() == fixed + p.extra_user_settings@.len()
            &&& forall|i: int|
                0 <= i < p.extra_user_settings@.len() ==> #[trigger] user_ini_values(p)[fixed + i] == (
                    p.extra_user_settings@[i].0@,
                    p.extra_user_settings@[i].1@,
                )
        }),
{
    let fixed: int = if p.admin_password matches Some(pw) && pw@.len() > 0 { 2 } else { 1 };
    assert forall|i: int| 0 <= i < p.extra_settings@.len() implies #[trigger] game_ini_values(p)[3 + i] == (
        p.extra_settings@[i].0@,
        p.extra_settings@[i].1@,
    ) by {
        assert(pairs_view(p.extra_settings@)[i] == (p.extra_settings@[i].0@, p.extra_settings@[i].1@));
    }
    assert forall|i: int| 0 <= i < p.extra_user_settings@.len() implies #[trigger] user_ini_values(p)[fixed
        + i] == (p.extra_user_settings@[i].0@, p.extra_user_settings@[i].1@) by {
        assert(pairs_view(p.extra_user_settings@)[i] == (
            p.extra_user_settings@[i].0@,
            p.extra_user_settings@[i].1@,
        ));
    }
}

/// What a profile writes to its INI files gives its own values back when
/// read: the `MaxPlayers` and `QueryPort` values parse (as `u32`) to its
/// maximum players and port, `Akset_MapName` is its map and
/// `DifficultyOffset` its difficulty text, and a non-empty admin password is
/// written as it is.
pub proof fn law_ini_values_read_back(p: Profile)
    ensures
        game_ini_values(p)[0] == ("DifficultyOffset"@, p.difficulty@),
        game_ini_values(p)[1].0 == "MaxPlayers"@,
        parse_u32(game_ini_values(p)[1].1) == Some(p.max_players),
        game_ini_values(p)[2] == ("Akset_MapName"@, p.map@),
        ({
            let u = user_ini_values(p);
            let at = if p.admin_password matches Some(pw) && pw@.len() > 0 { 1int } else { 0int };
            &&& u[at].0 == "QueryPort"@
            &&& parse_u32(u[at].1) == Some(p.port)
            &&& p.admin_password matches Some(pw) ==> (pw@.len() > 0 ==> u[0] == ("AdminPassword"@, pw@))
        }),
{
    crate::text::lemma_parse_decimal(p.max_players as u64);
    crate::text::lemma_parse_decimal(p.port as u64);
    let u = user_ini_values(p);
    if p.admin_password matches Some(pw) && pw@.len() > 0 {
        assert(u[1] == ("QueryPort"@, decimal(p.port as nat)));
    } else {
        assert(u[0] == ("QueryPort"@, decimal(p.port as nat)));
    }
}

} // verus!
