//! Reading the capture groups of a match.

use crate::matcher::groups_view;
use crate::text::{bounded_value, parse_decimal};
use vstd::prelude::*;

verus! {

/// The text of capture group `i`, where the search matched and the group
/// took part in the match.
pub open spec fn group_text(groups: Seq<Option<Seq<char>>>, i: int) -> Option<Seq<char>> {
    if 0 <= i < groups.len() {
        groups[i]
    } else {
        None
    }
}

/// The number that capture group `i` writes, if it is at most `max`.
pub open spec fn group_number(groups: Seq<Option<Seq<char>>>, i: int, max: nat) -> Option<nat> {
    match group_text(groups, i) {
        Some(text) => bounded_value(text, max),
        None => None,
    }
}

/// The text of capture group `i`, if the group exists and took part in the
/// match.
pub fn group<'a>(groups: &'a Vec<Option<String>>, i: usize) -> (r: Option<&'a str>)
    ensures
        match r {
            Some(text) => group_text(groups_view(Some(*groups))->0, i as int) == Some(text@),
            None => group_text(groups_view(Some(*groups))->0, i as int) is None,
        },
{
    if i < groups.len() {
        match &groups[i] {
            Some(text) => Some(text.as_str()),
            None => None,
        }
    } else {
        None
    }
}

/// Reads capture group `i` as a number of at most `max`.
pub fn number_in_group(groups: &Vec<Option<String>>, i: usize, max: u32) -> (r: Option<u32>)
    ensures
        match group_number(groups_view(Some(*groups))->0, i as int, max as nat) {
            Some(v) => r == Some(v as u32),
            None => r is None,
        },
{
    match group(groups, i) {
        Some(text) => parse_decimal(text, max),
        None => None,
    }
}

} // verus!
