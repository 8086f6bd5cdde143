//! Searching a text for a pattern with named groups.

use vstd::prelude::*;
use regex::Regex;

verus! {

/// What the `regex` crate finds when the regular expression written as
/// `pattern` is searched for in `haystack`: the texts that the groups named
/// `first` and `second` matched in the leftmost match. `None` where the
/// crate refuses the pattern, where nothing matches, and where one of the two
/// groups took no part in the match.
pub uninterp spec fn regex_named_groups(
    pattern: Seq<char>,
    haystack: Seq<char>,
    first: Seq<char>,
    second: Seq<char>,
) -> Option<(Seq<char>, Seq<char>)>;

/// The characters of a pair of texts.
pub open spec fn groups_view(groups: Option<(String, String)>) -> Option<(Seq<char>, Seq<char>)> {
    match groups {
        Some((first, second)) => Some((first@, second@)),
        None => None,
    }
}

/// Compiles `pattern` with `regex::Regex::new`, searches `haystack` with
/// `Regex::captures`, and reads the two named groups of the match with
/// `Captures::name` and `Match::as_str`. The search depends on the four texts
/// alone, so its result has a name; nothing else is claimed of it.
#[verifier::external_body]
pub(crate) fn named_groups(pattern: &str, haystack: &str, first: &str, second: &str) -> (groups:
    Option<(String, String)>)
    ensures
        groups_view(groups) == regex_named_groups(pattern@, haystack@, first@, second@),
{
    let regex = Regex::new(pattern).ok()?;
    let captures = regex.captures(haystack)?;
    let first = captures.name(first)?.as_str().to_owned();
    let second = captures.name(second)?.as_str().to_owned();
    Some((first, second))
}

} // verus!
