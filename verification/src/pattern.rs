//! The two regular expressions of the lexer, matched by the `regex` crate.

use vstd::prelude::*;
use regex::Regex;
use crate::chars::{digits, words};

verus! {

/// The pattern of a number: one or more ASCII digits at the start of the text.
pub open spec fn digits_pattern() -> Seq<char> {
    "^[[:digit:]]+"@
}

/// The pattern of a name: one or more ASCII letters, digits or underscores at the start of
/// the text.
pub open spec fn word_pattern() -> Seq<char> {
    "^([[:alnum:]]|_)+"@
}

/// Whether `span` is the match of the first `n` characters of a text: none where `n` is 0,
/// and else the offsets 0 and `n`.
pub open spec fn is_leading(span: Option<(usize, usize)>, n: nat) -> bool {
    match span {
        Some((start, end)) => n > 0 && start == 0 && end == n,
        None => n == 0,
    }
}

/// Compiles `pattern` with `regex::Regex::new` and searches `text` with `Regex::find`; the
/// result holds the byte offsets `Match::start` and `Match::end` of the first match.
///
/// Not proved, but taken from the documentation of `regex`: `^` matches only at the start of
/// the text, `[[:digit:]]` is `[0-9]`, `[[:alnum:]]` is `[0-9A-Za-z]`, and `x+` is greedy. So
/// either pattern matches exactly the longest run of its characters at the start of `text`,
/// and nothing where that run is empty. These characters take one byte each, so the end
/// offset is also the number of characters matched. Both patterns compile.
#[verifier::external_body]
pub(crate) fn find(pattern: &str, text: &str) -> (span: Option<(usize, usize)>)
    requires
        pattern@ == digits_pattern() || pattern@ == word_pattern(),
    ensures
        pattern@ == digits_pattern() ==> is_leading(span, digits(text@)),
        pattern@ == word_pattern() ==> is_leading(span, words(text@)),
{
    match Regex::new(pattern).unwrap().find(text) {
        Some(m) => Some((m.start(), m.end())),
        None => None,
    }
}

} // verus!
