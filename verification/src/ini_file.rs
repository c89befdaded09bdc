//! INI text read by `configparser`: the parsed sections as plain values, and
//! lookups in them.
//!
//! A parser made by `Ini::new` is case-insensitive: it stores section names
//! and keys lowercased, so lookups here use lowercase names.
use vstd::prelude::*;
use crate::paths::{opt_view, spec_lowercase};
use configparser::ini::Ini;
use crate::text::str_eq;

verus! {

/// The map that pairs stand for: each first component mapped to its second
/// one (a later pair wins).
pub open spec fn keyed<V>(v: Seq<(Seq<char>, V)>) -> Map<Seq<char>, V>
    decreases v.len(),
{
    if v.len() == 0 {
        Map::empty()
    } else {
        keyed(v.drop_last()).insert(v.last().0, v.last().1)
    }
}

/// No first component occurs twice.
pub open spec fn distinct_keys<V>(v: Seq<(Seq<char>, V)>) -> bool {
    forall|i: int, j: int| 0 <= i < j < v.len() ==> (#[trigger] v[i]).0 != (#[trigger] v[j]).0
}

/// With distinct keys, the map holds exactly the pairs' keys, each with its
/// own value.
pub proof fn lemma_keyed<V>(v: Seq<(Seq<char>, V)>)
    requires
        distinct_keys(v),
    ensures
        forall|k: Seq<char>| #[trigger]
            keyed(v).contains_key(k) <==> exists|i: int| 0 <= i < v.len() && v[i].0 == k,
        forall|i: int|
            0 <= i < v.len() ==> keyed(v).contains_key(#[trigger] v[i].0) && keyed(v)[v[i].0] == v[i].1,
    decreases v.len(),
{
    if v.len() > 0 {
        let w = v.drop_last();
        assert(distinct_keys(w));
        lemma_keyed(w);
        assert forall|k: Seq<char>| #[trigger]
            keyed(v).contains_key(k) <==> exists|i: int| 0 <= i < v.len() && v[i].0 == k by {
            if keyed(v).contains_key(k) {
                if k == v.last().0 {
                    assert(v[v.len() - 1].0 == k);
                } else {
                    assert(keyed(w).contains_key(k));
                    let i = choose|i: int| 0 <= i < w.len() && w[i].0 == k;
                    assert(v[i].0 == k);
                }
            }
            if exists|i: int| 0 <= i < v.len() && v[i].0 == k {
                let i = choose|i: int| 0 <= i < v.len() && v[i].0 == k;
                if i < v.len() - 1 {
                    assert(w[i].0 == k);
                }
            }
        }
        assert forall|i: int| 0 <= i < v.len() implies keyed(v).contains_key(#[trigger] v[i].0) && keyed(
            v,
        )[v[i].0] == v[i].1 by {
            if i < v.len() - 1 {
                assert(w[i] == v[i]);
                assert(v[i].0 != v[v.len() - 1].0);
            }
        }
    }
}

/// A parsed section as pairs of texts: each key with its value (a key
/// without a delimiter has no value).
pub open spec fn section_pairs(s: Seq<(String, Option<String>)>) -> Seq<(Seq<char>, Option<Seq<char>>)> {
    s.map_values(|p: (String, Option<String>)| (p.0@, opt_view(p.1)))
}

/// A parsed section as a map from key to value.
pub open spec fn section_view(s: Seq<(String, Option<String>)>) -> Map<Seq<char>, Option<Seq<char>>> {
    keyed(section_pairs(s))
}

/// Parsed sections as pairs: each section's name with its map.
pub open spec fn sections_pairs(v: Seq<(String, Vec<(String, Option<String>)>)>) -> Seq<
    (Seq<char>, Map<Seq<char>, Option<Seq<char>>>),
> {
    v.map_values(|p: (String, Vec<(String, Option<String>)>)| (p.0@, section_view(p.1@)))
}

/// Parsed sections as a map from section name to section.
pub open spec fn sections_view(v: Seq<(String, Vec<(String, Option<String>)>)>) -> Map<
    Seq<char>,
    Map<Seq<char>, Option<Seq<char>>>,
> {
    keyed(sections_pairs(v))
}

/// What a parse gave: the sections, or the error's text.
pub open spec fn ini_view(r: Result<Vec<(String, Vec<(String, Option<String>)>)>, String>) -> Result<
    Map<Seq<char>, Map<Seq<char>, Option<Seq<char>>>>,
    Seq<char>,
> {
    match r {
        Ok(v) => Ok(sections_view(v@)),
        Err(e) => Err(e@),
    }
}

/// Each section name occurs once, and each key once within its section.
pub open spec fn sections_distinct(v: Seq<(String, Vec<(String, Option<String>)>)>) -> bool {
    &&& distinct_keys(sections_pairs(v))
    &&& forall|i: int| 0 <= i < v.len() ==> distinct_keys(section_pairs(#[trigger] v[i].1@))
}

/// What `configparser`'s `Ini::read` gives for a text, read by a parser made
/// with `Ini::new`: the sections by (lowercased) name, each a map from
/// (lowercased) key to value, or the text of the parse error. It depends on
/// the text alone.
pub uninterp spec fn spec_ini_read(text: Seq<char>) -> Result<
    Map<Seq<char>, Map<Seq<char>, Option<Seq<char>>>>,
    Seq<char>,
>;

/// `configparser::ini::Ini::read` on a parser made by `Ini::new`: the parsed
/// sections, named by [`spec_ini_read`]. They come out of hash maps, so each
/// section name, and each key within its section, occurs once; their order
/// is not stated.
#[verifier::external_body]
pub(crate) fn ini_read(text: &str) -> (r: Result<Vec<(String, Vec<(String, Option<String>)>)>, String>)
    ensures
        ini_view(r) == spec_ini_read(text@),
        r matches Ok(v) ==> sections_distinct(v@),
{
    let mut ini = configparser::ini::Ini::new();
    match ini.read(text.to_string()) {
        Ok(map) => Ok(map.into_iter().map(|(name, section)| (name, section.into_iter().collect())).collect()),
        Err(e) => Err(e),
    }
}

/// The section of a name, empty when there is none.
pub open spec fn section_of(
    ini: Map<Seq<char>, Map<Seq<char>, Option<Seq<char>>>>,
    name: Seq<char>,
) -> Map<Seq<char>, Option<Seq<char>>> {
    if ini.contains_key(name) {
        ini[name]
    } else {
        Map::empty()
    }
}

/// The value of a key in a section; `None` when the key is absent or has no
/// value.
pub open spec fn value_of(section: Map<Seq<char>, Option<Seq<char>>>, key: Seq<char>) -> Option<Seq<char>> {
    if section.contains_key(key) {
        section[key]
    } else {
        None
    }
}

/// The parsed section of a name (see [`section_of`]), when there is one.
pub fn find_section<'a>(v: &'a Vec<(String, Vec<(String, Option<String>)>)>, name: &str) -> (r: Option<
    &'a Vec<(String, Option<String>)>,
>)
    requires
        sections_distinct(v@),
    ensures
        r matches Some(s) ==> sections_view(v@).contains_key(name@) && section_view(s@) == sections_view(
            v@,
        )[name@] && distinct_keys(section_pairs(s@)),
        r is None ==> !sections_view(v@).contains_key(name@),
{
    let ghost pairs = sections_pairs(v@);
    proof {
        lemma_keyed(pairs);
    }
    let mut i: usize = 0;
    while i < v.len()
        invariant
            i <= v@.len(),
            pairs == sections_pairs(v@),
            sections_distinct(v@),
            forall|j: int| 0 <= j < i ==> (#[trigger] pairs[j]).0 != name@,
        decreases v.len() - i,
    {
        if str_eq(v[i].0.as_str(), name) {
            proof {
                lemma_keyed(pairs);
            }
            assert(pairs[i as int] == (v@[i as int].0@, section_view(v@[i as int].1@)));
            assert(pairs[i as int].0 == name@);
            assert(distinct_keys(section_pairs(v@[i as int].1@)));
            return Some(&v[i].1);
        }
        assert(pairs[i as int].0 != name@);
        i = i + 1;
    }
    proof {
        if sections_view(v@).contains_key(name@) {
            let j = choose|j: int| 0 <= j < pairs.len() && pairs[j].0 == name@;
            assert(pairs[j].0 != name@);
        }
    }
    None
}

/// The value of a key in a parsed section (see [`value_of`]).
pub fn find_value(section: &Vec<(String, Option<String>)>, key: &str) -> (r: Option<String>)
    requires
        distinct_keys(section_pairs(section@)),
    ensures
        opt_view(r) == value_of(section_view(section@), key@),
{
    let ghost pairs = section_pairs(section@);
    proof {
        lemma_keyed(pairs);
    }
    let mut i: usize = 0;
    while i < section.len()
        invariant
            i <= section@.len(),
            pairs == section_pairs(section@),
            distinct_keys(pairs),
            forall|j: int| 0 <= j < i ==> (#[trigger] pairs[j]).0 != key@,
        decreases section.len() - i,
    {
        if str_eq(section[i].0.as_str(), key) {
            proof {
                lemma_keyed(pairs);
            }
            assert(pairs[i as int] == (section@[i as int].0@, opt_view(section@[i as int].1)));
            assert(pairs[i as int].0 == key@);
            return match &section[i].1 {
                Some(v) => Some(v.clone()),
                None => None,
            };
        }
        assert(pairs[i as int].0 != key@);
        i = i + 1;
    }
    proof {
        if section_view(section@).contains_key(key@) {
            let j = choose|j: int| 0 <= j < pairs.len() && pairs[j].0 == key@;
            assert(pairs[j].0 != key@);
        }
    }
    None
}

// ---------------------------------------------------------------------------
// Building a configuration to write
// ---------------------------------------------------------------------------

/// `configparser`'s configuration type, held whole.
#[verifier::external_type_specification]
#[verifier::external_body]
pub struct ExIni(configparser::ini::Ini);

/// What a configuration holds: its sections by name, each a map from key to
/// value.
pub uninterp spec fn spec_ini_contents(ini: Ini) -> Map<Seq<char>, Map<Seq<char>, Option<Seq<char>>>>;

/// How a parser made by `Ini::new` stores a section name or key: as it is
/// when it is all ASCII without uppercase letters, else lowercased by
/// `str::to_lowercase`.
pub open spec fn casefold(s: Seq<char>) -> Seq<char> {
    if forall|i: int| 0 <= i < s.len() ==> (s[i] as int) < 128 && !('A' <= #[trigger] s[i] && s[i] <= 'Z') {
        s
    } else {
        spec_lowercase(s)
    }
}

/// A configuration with the value of a key set in a section (created when
/// missing).
pub open spec fn set_in(
    m: Map<Seq<char>, Map<Seq<char>, Option<Seq<char>>>>,
    section: Seq<char>,
    key: Seq<char>,
    value: Option<Seq<char>>,
) -> Map<Seq<char>, Map<Seq<char>, Option<Seq<char>>>> {
    let old_section = if m.contains_key(section) {
        m[section]
    } else {
        Map::empty()
    };
    m.insert(section, old_section.insert(key, value))
}

/// A configuration without sections.
pub open spec fn empty_ini() -> Map<Seq<char>, Map<Seq<char>, Option<Seq<char>>>> {
    Map::empty()
}

/// `configparser::ini::Ini::new`: an empty, case-insensitive configuration.
#[verifier::external_body]
pub(crate) fn ini_new() -> (r: Ini)
    ensures
        spec_ini_contents(r) == empty_ini(),
{
    Ini::new()
}

/// `configparser::ini::Ini::set` on a configuration made by `Ini::new`: sets
/// the value of a key in a section, creating the section when needed, with
/// the section name and key case-folded (see [`casefold`]).
#[verifier::external_body]
pub(crate) fn ini_set(ini: &mut Ini, section: &str, key: &str, value: Option<String>)
    ensures
        spec_ini_contents(*final(ini)) == set_in(
            spec_ini_contents(*old(ini)),
            casefold(section@),
            casefold(key@),
            opt_view(value),
        ),
{
    ini.set(section, key, value);
}

/// The name of the default section, whose keys are written without a
/// header.
pub open spec fn default_section() -> Seq<char> {
    "default"@
}

/// A key's line as written: the key, then `=` and the value when it has
/// one, then the line ending.
pub open spec fn key_line(k: Seq<char>, v: Option<Seq<char>>, eol: Seq<char>) -> Seq<char> {
    match v {
        Some(x) => k + "="@ + x + eol,
        None => k + eol,
    }
}

/// The lines of a section's keys, in the given order.
pub open spec fn key_lines(sec: Map<Seq<char>, Option<Seq<char>>>, keys: Seq<Seq<char>>, eol: Seq<char>) -> Seq<
    char,
>
    decreases keys.len(),
{
    if keys.len() == 0 {
        Seq::empty()
    } else {
        key_lines(sec, keys.drop_last(), eol) + key_line(keys.last(), sec[keys.last()], eol)
    }
}

/// Whether names list each key of a map once.
pub open spec fn lists_keys<V>(names: Seq<Seq<char>>, m: Map<Seq<char>, V>) -> bool {
    &&& names.no_duplicates()
    &&& forall|k: Seq<char>| #[trigger] names.contains(k) <==> m.contains_key(k)
}

/// Sections written in the given order, each as its `[name]` line followed
/// by its keys' lines in the given order.
pub open spec fn section_blocks(
    m: Map<Seq<char>, Map<Seq<char>, Option<Seq<char>>>>,
    names: Seq<Seq<char>>,
    keys: Seq<Seq<Seq<char>>>,
    eol: Seq<char>,
) -> Seq<char>
    decreases names.len(),
{
    if names.len() == 0 || keys.len() == 0 {
        Seq::empty()
    } else {
        section_blocks(m, names.drop_last(), keys.drop_last(), eol) + "["@ + names.last() + "]"@ + eol
            + key_lines(m[names.last()], keys.last(), eol)
    }
}

/// Whether a text is a configuration written in the given orders with the
/// given line ending (`\n`, or `\r\n` on Windows): the default section's keys
/// first without a header, then every other section once, each key of a
/// section once.
pub open spec fn written_ini_as(
    m: Map<Seq<char>, Map<Seq<char>, Option<Seq<char>>>>,
    text: Seq<char>,
    eol: Seq<char>,
    default_keys: Seq<Seq<char>>,
    names: Seq<Seq<char>>,
    keys: Seq<Seq<Seq<char>>>,
) -> bool {
    &&& eol == "\n"@ || eol == "\r\n"@
    &&& lists_keys(names, m.remove(default_section()))
    &&& names.len() == keys.len()
    &&& forall|i: int| 0 <= i < names.len() ==> lists_keys(#[trigger] keys[i], m[names[i]])
    &&& m.contains_key(default_section()) ==> lists_keys(default_keys, m[default_section()])
    &&& text == (if m.contains_key(default_section()) {
        key_lines(m[default_section()], default_keys, eol)
    } else {
        Seq::empty()
    }) + section_blocks(m, names, keys, eol)
}

/// Whether a text is a configuration written out, in some order of its
/// sections and keys (see [`written_ini_as`]).
pub open spec fn written_ini(m: Map<Seq<char>, Map<Seq<char>, Option<Seq<char>>>>, text: Seq<char>) -> bool {
    exists|eol: Seq<char>, default_keys: Seq<Seq<char>>, names: Seq<Seq<char>>, keys: Seq<Seq<Seq<char>>>|
        #[trigger] written_ini_as(m, text, eol, default_keys, names, keys)
}

/// `configparser::ini::Ini::writes`: the configuration as INI text (see
/// [`written_ini`]). Its sections and keys come out in the order of hash
/// maps that each process seeds, so that order is left open.
#[verifier::external_body]
pub(crate) fn ini_writes(ini: &Ini) -> (r: String)
    ensures
        written_ini(spec_ini_contents(*ini), r@),
{
    ini.writes()
}

} // verus!
