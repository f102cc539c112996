//! Regular-expression matching, done by the `regex` crate.

use vstd::prelude::*;

verus! {

/// What `regex` reports for `pattern` on `text`: `None` when the pattern
/// does not compile or does not match, otherwise the text of each capture
/// group of the first match (group 0 being the whole match), `None` for a
/// group that did not take part.
pub uninterp spec fn regex_captures(pattern: Seq<char>, text: Seq<char>) -> Option<Seq<Option<Seq<char>>>>;

/// The views of captured groups.
pub open spec fn groups_view(v: Seq<Option<String>>) -> Seq<Option<Seq<char>>> {
    v.map_values(|o: Option<String>| match o {
        Some(s) => Some(s@),
        None => None,
    })
}

/// The text of group `i`, empty when it is missing.
pub open spec fn group(c: Seq<Option<Seq<char>>>, i: int) -> Seq<char> {
    if 0 <= i < c.len() && c[i] is Some {
        c[i].unwrap()
    } else {
        Seq::empty()
    }
}

/// `Regex::new(pattern)` followed by `Regex::captures(text)`, with the
/// groups copied out as strings.
#[verifier::external_body]
pub(crate) fn captures(pattern: &str, text: &str) -> (r: Option<Vec<Option<String>>>)
    ensures
        match r {
            Some(v) => regex_captures(pattern@, text@) == Some(groups_view(v@)),
            None => regex_captures(pattern@, text@) is None,
        },
{
    regex::Regex::new(pattern).ok().and_then(|re| re.captures(text).map(|c| c.iter().map(|m| m.map(|m| m.as_str().to_string())).collect()))
}

/// The text of capture group `i` (empty when it is missing).
pub fn group_text(caps: &Vec<Option<String>>, i: usize) -> (r: String)
    ensures
        r@ == group(groups_view(caps@), i as int),
{
    if i < caps.len() {
        match &caps[i] {
            Some(s) => s.clone(),
            None => String::new(),
        }
    } else {
        String::new()
    }
}

} // verus!
