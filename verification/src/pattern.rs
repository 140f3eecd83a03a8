//! Regular expressions, by way of the `regex` crate.

use vstd::prelude::*;

verus! {

/// The text that a capture group of the leftmost match of a regular
/// expression holds: `None` where the pattern does not compile, where it
/// matches nowhere in the haystack, and where the group took no part in the
/// match.
pub uninterp spec fn regex_capture(pattern: Seq<char>, hay: Seq<char>, group: nat) -> Option<
    Seq<char>,
>;

/// Compiles `pattern` with `regex::Regex::new`, searches `hay` with
/// `Regex::captures`, and copies the text of capture group `group`
/// (`Captures::get`). The contract only names the result: it is whatever the
/// `regex` crate computes from these three values.
#[verifier::external_body]
pub(crate) fn capture(pattern: &str, hay: &str, group: usize) -> (r: Option<String>)
    ensures
        match r {
            Some(s) => regex_capture(pattern@, hay@, group as nat) == Some(s@),
            None => regex_capture(pattern@, hay@, group as nat) is None,
        },
{
    match regex::Regex::new(pattern) {
        Ok(re) => re.captures(hay).and_then(|c| c.get(group)).map(|m| m.as_str().to_string()),
        Err(_) => None,
    }
}

/// The text with every match of a regular expression replaced, as
/// `Regex::replace_all` computes it from the pattern, the haystack and the
/// replacement; `None` where the pattern does not compile.
pub uninterp spec fn regex_replaced(
    pattern: Seq<char>,
    hay: Seq<char>,
    replacement: Seq<char>,
) -> Option<Seq<char>>;

/// The leftmost match of a regular expression, as `Regex::find` finds it:
/// the text before the match, the match, and the text after it; `None`
/// where the pattern does not compile or matches nowhere.
pub uninterp spec fn regex_split(pattern: Seq<char>, hay: Seq<char>) -> Option<
    (Seq<char>, Seq<char>, Seq<char>),
>;

/// The three parts of a split as sequences of characters.
pub open spec fn split_view(parts: Option<(String, String, String)>) -> Option<
    (Seq<char>, Seq<char>, Seq<char>),
> {
    match parts {
        Some((before, matched, after)) => Some((before@, matched@, after@)),
        None => None,
    }
}

/// Compiles `pattern` with `regex::Regex::new` and replaces every match in
/// `hay` with `Regex::replace_all`. The contract only names the result.
#[verifier::external_body]
pub(crate) fn replace_all(pattern: &str, hay: &str, replacement: &str) -> (r: Option<String>)
    ensures
        match r {
            Some(s) => regex_replaced(pattern@, hay@, replacement@) == Some(s@),
            None => regex_replaced(pattern@, hay@, replacement@) is None,
        },
{
    match regex::Regex::new(pattern) {
        Ok(re) => Some(re.replace_all(hay, replacement).into_owned()),
        Err(_) => None,
    }
}

/// Compiles `pattern` with `regex::Regex::new`, searches `hay` with
/// `Regex::find`, and copies the text before the match, the match
/// (`Match::as_str`) and the text after it. The contract only names the
/// result.
#[verifier::external_body]
pub(crate) fn find_split(pattern: &str, hay: &str) -> (r: Option<(String, String, String)>)
    ensures
        split_view(r) == regex_split(pattern@, hay@),
{
    match regex::Regex::new(pattern) {
        Ok(re) => re.find(hay).map(
            |m| (hay[..m.start()].to_string(), m.as_str().to_string(), hay[m.end()..].to_string()),
        ),
        Err(_) => None,
    }
}

} // verus!
