//! Regular-expression matching on tool output, through the regex crate.
use vstd::prelude::*;
use crate::input::text_of;

verus! {

/// The groups (group 0 first) that the regex crate captures when it compiles
/// `pattern` and searches `text` for the leftmost-first match; `None` when
/// the pattern does not compile or nothing matches.
pub uninterp spec fn regex_captures(pattern: Seq<char>, text: Seq<char>) -> Option<Seq<Option<Seq<char>>>>;

pub open spec fn groups_view(g: Option<Vec<Option<String>>>) -> Option<Seq<Option<Seq<char>>>> {
    match g {
        Some(v) => Some(v@.map_values(|t: Option<String>| text_of(t))),
        None => None,
    }
}

/// Relies on `regex::Regex::new` to compile `pattern` and on
/// `regex::Regex::captures` for the groups of the first match in `text`
/// (`Captures::iter`: one entry per group, group 0, the whole match, always
/// present).
#[verifier::external_body]
pub(crate) fn captures(pattern: &str, text: &str) -> (r: Option<Vec<Option<String>>>)
    ensures
        groups_view(r) == regex_captures(pattern@, text@),
        r matches Some(g) ==> g@.len() >= 1 && g@[0] is Some,
{
    match regex::Regex::new(pattern) {
        Ok(re) => re.captures(text).map(
            |c| c.iter().map(|m| m.map(|m| m.as_str().to_string())).collect(),
        ),
        Err(_) => None,
    }
}

} // verus!
