//! The regular-expression engine that the record parser relies on.
//!
//! Matching itself is done by the `regex` crate. Nothing in this module is
//! proved: it declares the engine's types, gives names to what the engine
//! computes, and wraps the two calls that the library makes.

use regex::Regex;
use vstd::prelude::*;

verus! {

/// `regex::Regex`, a compiled regular expression. Opaque to the proofs.
#[verifier::external_type_specification]
#[verifier::external_body]
pub struct ExRegex(regex::Regex);

/// `regex::Error`, why a pattern did not compile. Opaque to the proofs.
#[verifier::external_type_specification]
#[verifier::external_body]
pub struct ExRegexError(regex::Error);

/// What `Regex::new` makes of `pattern`: the compiled expression, or `None`
/// where the engine rejects the pattern.
pub uninterp spec fn compiled(pattern: Seq<char>) -> Option<Regex>;

/// What `Regex::captures` finds when `regex` searches `line`: `None` where
/// nothing matches; otherwise one entry per capture group of the leftmost
/// match, group 0 being the whole match, with `None` for a group that took
/// no part in it.
pub uninterp spec fn captured_groups(regex: Regex, line: Seq<char>) -> Option<
    Seq<Option<Seq<char>>>,
>;

/// The text of one capture group as a sequence of characters.
pub open spec fn group_view(group: Option<String>) -> Option<Seq<char>> {
    match group {
        Some(text) => Some(text@),
        None => None,
    }
}

/// The capture groups of a search as sequences of characters.
pub open spec fn groups_view(groups: Option<Vec<Option<String>>>) -> Option<
    Seq<Option<Seq<char>>>,
> {
    match groups {
        Some(list) => Some(list@.map_values(|g: Option<String>| group_view(g))),
        None => None,
    }
}

/// Calls `Regex::new`. The contract claims only that compiling is a function
/// of the pattern: the same pattern always gives the same expression, or is
/// always rejected.
#[verifier::external_body]
pub(crate) fn compile(pattern: &str) -> (r: Result<Regex, regex::Error>)
    ensures
        match r {
            Ok(regex) => compiled(pattern@) == Some(regex),
            Err(_) => compiled(pattern@) is None,
        },
{
    Regex::new(pattern)
}

/// Calls `Regex::captures` and copies each group's text out of the match.
/// The contract claims only that the outcome is a function of the expression
/// and the line.
#[verifier::external_body]
pub(crate) fn capture_groups(regex: &Regex, line: &str) -> (groups: Option<Vec<Option<String>>>)
    ensures
        groups_view(groups) == captured_groups(*regex, line@),
{
    let found = regex.captures(line)?;
    let mut groups: Vec<Option<String>> = Vec::new();
    for group in found.iter() {
        groups.push(group.map(|m| m.as_str().to_string()));
    }
    Some(groups)
}

} // verus!
