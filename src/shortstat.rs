use vstd::prelude::*;

use crate::changes::GitChanges;
use crate::decimal::{decimal_i32, parse_i32};

verus! {

/// Pattern that picks the numbers out of a `git diff --shortstat` line:
/// group 4 holds the insertions and group 6 the deletions.
pub const SHORTSTAT_PATTERN: &'static str = "((\\d+)\\D+)((\\d+)\\D+)?((\\d+)?\\D+)?";

/// The capture groups of the leftmost match of `pattern` in `text`, group 0
/// first; `None` when the pattern does not compile or does not match.
pub uninterp spec fn regex_groups(pattern: Seq<char>, text: Seq<char>) -> Option<Seq<Option<Seq<char>>>>;

pub open spec fn text_view(t: Option<String>) -> Option<Seq<char>> {
    match t {
        Some(s) => Some(s@),
        None => None,
    }
}

pub open spec fn groups_view(g: Option<Vec<Option<String>>>) -> Option<Seq<Option<Seq<char>>>> {
    match g {
        Some(v) => Some(v@.map_values(|t: Option<String>| text_view(t))),
        None => None,
    }
}

/// Relies on regex::Regex::new and regex::Regex::captures: compiles
/// `pattern` and hands out the groups of its leftmost match in `text`.
#[verifier::external_body]
fn capture_groups(pattern: &str, text: &str) -> (r: Option<Vec<Option<String>>>)
    ensures
        groups_view(r) == regex_groups(pattern@, text@),
{
    let re = regex::Regex::new(pattern).ok()?;
    let caps = re.captures(text)?;
    Some(caps.iter().map(|m| m.map(|m| m.as_str().to_string())).collect())
}

/// The count written in group `i`: zero where the group is absent or did
/// not take part in the match.
pub open spec fn group_count(g: Seq<Option<Seq<char>>>, i: int) -> Option<i32> {
    if i < g.len() {
        match g[i] {
            Some(t) => decimal_i32(t),
            None => Some(0),
        }
    } else {
        Some(0)
    }
}

/// The line counts that the groups of a shortstat match stand for: all zero
/// where nothing matched; `None` where a count is no non-negative `i32` or
/// the total does not fit one.
pub open spec fn changes_of_groups(g: Option<Seq<Option<Seq<char>>>>) -> Option<GitChanges> {
    match g {
        None => Some(GitChanges { insertions: 0, deletions: 0, total: 0 }),
        Some(gs) => match (group_count(gs, 4), group_count(gs, 6)) {
            (Some(i), Some(d)) => if i >= 0 && d >= 0 && i + d <= i32::MAX {
                Some(GitChanges { insertions: i, deletions: d, total: (i + d) as i32 })
            } else {
                None
            },
            _ => None,
        },
    }
}

fn count_in_group(groups: &Vec<Option<String>>, i: usize) -> (r: Option<i32>)
    ensures
        r == group_count(groups@.map_values(|t: Option<String>| text_view(t)), i as int),
{
    if i < groups.len() {
        match &groups[i] {
            Some(t) => parse_i32(t.as_str()),
            None => Some(0),
        }
    } else {
        Some(0)
    }
}

/// Line counts from the capture groups of `SHORTSTAT_PATTERN`.
pub fn changes_from_groups(groups: &Option<Vec<Option<String>>>) -> (r: Option<GitChanges>)
    ensures
        r == changes_of_groups(groups_view(*groups)),
        r matches Some(c) ==> c.wf(),
{
    match groups {
        None => Some(GitChanges { insertions: 0, deletions: 0, total: 0 }),
        Some(gs) => {
            let ins = count_in_group(gs, 4);
            let del = count_in_group(gs, 6);
            match (ins, del) {
                (Some(i), Some(d)) => {
                    if i >= 0 && d >= 0 && i <= i32::MAX - d {
                        Some(GitChanges { insertions: i, deletions: d, total: i + d })
                    } else {
                        None
                    }
                },
                _ => None,
            }
        },
    }
}

/// Line counts from the output of `git diff --shortstat`: all zero when the
/// output holds no numbers.
pub fn parse_shortstat(text: &str) -> (r: Option<GitChanges>)
    ensures
        r == changes_of_groups(regex_groups(SHORTSTAT_PATTERN@, text@)),
        r matches Some(c) ==> c.wf(),
{
    let groups = capture_groups(SHORTSTAT_PATTERN, text);
    changes_from_groups(&groups)
}

} // verus!
