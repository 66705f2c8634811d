//! Regular-expression captures, computed by the regex crate.
use vstd::prelude::*;

verus! {

/// The capture groups (group 0 the whole match; `None` for a group that did
/// not take part) of the leftmost-first match of `pattern` in `text`, as the
/// regex crate computes them; `None` when the pattern does not compile or
/// nothing matches.
pub uninterp spec fn regex_captures_of(pattern: Seq<char>, text: Seq<char>) -> Option<
    Seq<Option<Seq<char>>>,
>;

/// The texts of a list of optional strings.
pub open spec fn opt_texts(v: Seq<Option<String>>) -> Seq<Option<Seq<char>>> {
    v.map_values(
        |o: Option<String>|
            match o {
                Some(s) => Some(s@),
                None => None,
            },
    )
}

/// regex: `Regex::new(pattern)` then `captures(text)`, each group as an owned
/// string.  The result is named, not stated: it is the regex crate's matching.
#[verifier::external_body]
fn regex_captures(pattern: &str, text: &str) -> (r: Option<Vec<Option<String>>>)
    ensures
        match r {
            Some(c) => regex_captures_of(pattern@, text@) == Some(opt_texts(c@)),
            None => regex_captures_of(pattern@, text@) is None,
        },
{
    let re = regex::Regex::new(pattern).ok()?;
    let caps = re.captures(text)?;
    Some(caps.iter().map(|m| m.map(|m| m.as_str().to_string())).collect())
}

/// Capture group `i` of the match of `pattern` in `text`, if the pattern matches and the group took part.
pub open spec fn capture_group(pattern: Seq<char>, text: Seq<char>, i: int) -> Option<Seq<char>> {
    match regex_captures_of(pattern, text) {
        Some(g) => if 0 <= i < g.len() {
            g[i]
        } else {
            None
        },
        None => None,
    }
}

/// Capture group `i` of the match of `pattern` in `text`.
pub fn capture(pattern: &str, text: &str, i: usize) -> (r: Option<String>)
    ensures
        match r {
            Some(s) => capture_group(pattern@, text@, i as int) == Some(s@),
            None => capture_group(pattern@, text@, i as int) is None,
        },
{
    match regex_captures(pattern, text) {
        Some(groups) => {
            if i < groups.len() {
                match &groups[i] {
                    Some(s) => Some(s.clone()),
                    None => None,
                }
            } else {
                None
            }
        },
        None => None,
    }
}

/// Capture groups `i` and `j` of the match of `pattern` in `text`, when both took part.
pub fn capture_pair(pattern: &str, text: &str, i: usize, j: usize) -> (r: Option<(String, String)>)
    ensures
        match r {
            Some(p) => capture_group(pattern@, text@, i as int) == Some(p.0@) && capture_group(
                pattern@,
                text@,
                j as int,
            ) == Some(p.1@),
            None => capture_group(pattern@, text@, i as int) is None || capture_group(
                pattern@,
                text@,
                j as int,
            ) is None,
        },
{
    match regex_captures(pattern, text) {
        Some(groups) => {
            if i < groups.len() && j < groups.len() {
                match (&groups[i], &groups[j]) {
                    (Some(a), Some(b)) => Some((a.clone(), b.clone())),
                    _ => None,
                }
            } else {
                None
            }
        },
        None => None,
    }
}

} // verus!
