//! Matching a text against a regular expression. The matching is done by
//! the `regex` crate; what it finds is a function of pattern and text, and
//! has a name here.

use vstd::prelude::*;
use crate::error::Failure;

verus! {

/// The error of `regex`.
#[verifier::external_type_specification]
#[verifier::external_body]
pub struct ExPatternError(regex::Error);

/// What `regex` finds of `pattern` in `text`: nothing at all where it
/// refuses the pattern; else nothing where the pattern matches nowhere in
/// the text; else, for the leftmost match, the capture groups in the order
/// of their opening brackets, the whole match first, each with the part of
/// the text that it matched, or nothing where it took no part in the match.
pub uninterp spec fn regex_captures(pattern: Seq<char>, text: Seq<char>) -> Option<
    Option<Seq<Option<Seq<char>>>>,
>;

/// `regex::Regex::new` on `pattern`, then `Regex::captures` on `text`: the
/// capture groups of the leftmost match, as `Captures::iter` gives them.
/// Fails exactly where `Regex::new` does.
#[verifier::external_body]
fn captures(pattern: &str, text: &str) -> (r: Result<
    Option<Vec<Option<String>>>,
    regex::Error,
>)
    ensures
        match r {
            Ok(found) => regex_captures(pattern@, text@) == Some(found.deep_view()),
            Err(_) => regex_captures(pattern@, text@) is None,
        },
{
    let re = regex::Regex::new(pattern)?;
    Ok(re.captures(text).map(|c| c.iter().map(|m| m.map(|m| m.as_str().to_string())).collect()))
}

/// What is found of `pattern` in `text`, or that the pattern is refused.
pub open spec fn found(pattern: Seq<char>, text: Seq<char>) -> Result<
    Option<Seq<Option<Seq<char>>>>,
    Failure,
> {
    match regex_captures(pattern, text) {
        Some(groups) => Ok(groups),
        None => Err(Failure::BadPattern),
    }
}

/// Match `text` against `pattern`: the capture groups of the leftmost
/// match, nothing where there is no match. A pattern that is no regular
/// expression is refused.
pub fn find(pattern: &str, text: &str) -> (r: Result<Option<Vec<Option<String>>>, Failure>)
    ensures
        match found(pattern@, text@) {
            Ok(groups) => r matches Ok(g) && g.deep_view() == groups,
            Err(e) => r == Err::<Option<Vec<Option<String>>>, Failure>(e),
        },
{
    match captures(pattern, text) {
        Ok(groups) => Ok(groups),
        Err(_) => Err(Failure::BadPattern),
    }
}

/// The text of the capture group `index`; empty where there is no such
/// group or where it took no part in the match.
pub open spec fn group_text(groups: Seq<Option<Seq<char>>>, index: int) -> Seq<char> {
    if 0 <= index < groups.len() {
        match groups[index] {
            Some(text) => text,
            None => Seq::empty(),
        }
    } else {
        Seq::empty()
    }
}

/// The text of the capture group `index`.
pub fn group(groups: &Vec<Option<String>>, index: usize) -> (r: String)
    ensures
        r@ == group_text(groups.deep_view(), index as int),
{
    if index < groups.len() {
        match &groups[index] {
            Some(text) => text.clone(),
            None => String::new(),
        }
    } else {
        String::new()
    }
}

} // verus!
