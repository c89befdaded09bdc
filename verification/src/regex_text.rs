//! Regular expressions, matched by the `regex` crate.
use vstd::prelude::*;
use crate::paths::opt_view;

verus! {

/// The capture groups of the first match of a regular expression in a text,
/// as `regex::Regex::captures` gives them (group 0 is the whole match; a
/// group that took no part is `None`), or `None` when the pattern does not
/// match (or does not compile). It depends on the pattern and text alone.
pub uninterp spec fn spec_regex_captures(pattern: Seq<char>, text: Seq<char>) -> Option<
    Seq<Option<Seq<char>>>,
>;

/// Capture groups as texts.
pub open spec fn captures_view(r: Option<Vec<Option<String>>>) -> Option<Seq<Option<Seq<char>>>> {
    match r {
        Some(v) => Some(v@.map_values(|o: Option<String>| opt_view(o))),
        None => None,
    }
}

/// `regex::Regex::new` then `Regex::captures`: the capture groups of the
/// first match, named by [`spec_regex_captures`].
#[verifier::external_body]
pub(crate) fn regex_captures(pattern: &str, text: &str) -> (r: Option<Vec<Option<String>>>)
    ensures
        captures_view(r) == spec_regex_captures(pattern@, text@),
{
    match regex::Regex::new(pattern) {
        Ok(re) => re.captures(text).map(|c| c.iter().map(|m| m.map(|m| m.as_str().to_string())).collect()),
        Err(_) => None,
    }
}

/// Group `i` of a match; `None` without a match or when the group took no
/// part.
pub open spec fn group_of(c: Option<Seq<Option<Seq<char>>>>, i: int) -> Option<Seq<char>> {
    match c {
        Some(g) => if 0 <= i < g.len() {
            g[i]
        } else {
            None
        },
        None => None,
    }
}

pub fn group(c: &Option<Vec<Option<String>>>, i: usize) -> (r: Option<String>)
    ensures
        opt_view(r) == group_of(captures_view(*c), i as int),
{
    match c {
        Some(v) => {
            if i < v.len() {
                match &v[i] {
                    Some(s) => Some(s.clone()),
                    None => None,
                }
            } else {
                None
            }
        },
        None => None,
    }
}

/// What `regex::Regex::replace_all` gives: the text with every
/// non-overlapping match of the pattern (leftmost first) replaced by the
/// replacement; the text unchanged when the pattern does not compile. It
/// depends on its three arguments alone.
pub uninterp spec fn spec_regex_replace_all(pattern: Seq<char>, text: Seq<char>, replacement: Seq<char>) -> Seq<
    char,
>;

/// `regex::Regex::new` then `Regex::replace_all`; named by
/// [`spec_regex_replace_all`].
#[verifier::external_body]
pub(crate) fn regex_replace_all(pattern: &str, text: &str, replacement: &str) -> (r: String)
    ensures
        r@ == spec_regex_replace_all(pattern@, text@, replacement@),
{
    match regex::Regex::new(pattern) {
        Ok(re) => re.replace_all(text, replacement).into_owned(),
        Err(_) => text.to_string(),
    }
}

} // verus!
