//! Character classes of the source language, and runs of a class at the start of a text.

use vstd::prelude::*;
use vstd::string::*;

verus! {

/// Whitespace: the characters with the Unicode property `White_Space`.
pub open spec fn is_space(c: char) -> bool {
    ||| '\u{9}' <= c <= '\u{d}'
    ||| c == ' '
    ||| c == '\u{85}'
    ||| c == '\u{a0}'
    ||| c == '\u{1680}'
    ||| '\u{2000}' <= c <= '\u{200a}'
    ||| c == '\u{2028}'
    ||| c == '\u{2029}'
    ||| c == '\u{202f}'
    ||| c == '\u{205f}'
    ||| c == '\u{3000}'
}

/// The ten decimal digits.
pub open spec fn is_digit(c: char) -> bool {
    '0' <= c <= '9'
}

/// What a name is made of: ASCII letters, decimal digits and the underscore.
pub open spec fn is_word(c: char) -> bool {
    is_digit(c) || 'a' <= c <= 'z' || 'A' <= c <= 'Z' || c == '_'
}

/// The number of characters at the start of `s` that all satisfy `class`.
pub open spec fn run(s: Seq<char>, class: spec_fn(char) -> bool) -> nat
    decreases s.len(),
{
    if s.len() > 0 && class(s[0]) {
        1 + run(s.drop_first(), class)
    } else {
        0
    }
}

/// The length of the whitespace at the start of `s`.
pub open spec fn spaces(s: Seq<char>) -> nat {
    run(s, |c: char| is_space(c))
}

/// The length of the run of digits at the start of `s`.
pub open spec fn digits(s: Seq<char>) -> nat {
    run(s, |c: char| is_digit(c))
}

/// The length of the run of name characters at the start of `s`.
pub open spec fn words(s: Seq<char>) -> nat {
    run(s, |c: char| is_word(c))
}

/// `s` without the whitespace at its start.
pub open spec fn strip(s: Seq<char>) -> Seq<char> {
    s.skip(spaces(s) as int)
}

/// A run stays inside the text, holds only characters of the class, and ends at the first
/// character that is not of the class.
pub proof fn lemma_run(s: Seq<char>, class: spec_fn(char) -> bool)
    ensures
        run(s, class) <= s.len(),
        forall|i: int| 0 <= i < run(s, class) ==> class(#[trigger] s[i]),
        run(s, class) < s.len() ==> !class(s[run(s, class) as int]),
    decreases s.len(),
{
    if s.len() > 0 && class(s[0]) {
        let t = s.drop_first();
        lemma_run(t, class);
        assert forall|i: int| 0 <= i < run(s, class) implies class(#[trigger] s[i]) by {
            if i > 0 {
                assert(s[i] == t[i - 1]);
            }
        }
        if run(s, class) < s.len() {
            assert(s[run(s, class) as int] == t[run(t, class) as int]);
        }
    }
}

/// The run is the only length with the properties that `lemma_run` states.
pub proof fn lemma_run_is(s: Seq<char>, class: spec_fn(char) -> bool, n: nat)
    requires
        n <= s.len(),
        forall|i: int| 0 <= i < n ==> class(#[trigger] s[i]),
        n < s.len() ==> !class(s[n as int]),
    ensures
        run(s, class) == n,
    decreases s.len(),
{
    if n > 0 {
        let t = s.drop_first();
        assert(class(s[0]));
        assert forall|i: int| 0 <= i < n - 1 implies class(#[trigger] t[i]) by {
            assert(t[i] == s[i + 1]);
        }
        if n - 1 < t.len() {
            assert(t[n - 1] == s[n as int]);
        }
        lemma_run_is(t, class, (n - 1) as nat);
    }
}

/// Whether `c` is whitespace.
pub fn space(c: char) -> (b: bool)
    ensures
        b == is_space(c),
{
    ('\u{9}' <= c && c <= '\u{d}') || c == ' ' || c == '\u{85}' || c == '\u{a0}' || c
        == '\u{1680}' || ('\u{2000}' <= c && c <= '\u{200a}') || c == '\u{2028}' || c
        == '\u{2029}' || c == '\u{202f}' || c == '\u{205f}' || c == '\u{3000}'
}

/// Counts the whitespace at the start of `text`.
pub fn count_spaces(text: &str) -> (n: usize)
    ensures
        n == spaces(text@),
        n <= text@.len(),
{
    let len = text.unicode_len();
    let mut i: usize = 0;
    while i < len && space(text.get_char(i))
        invariant
            i <= len,
            len == text@.len(),
            forall|k: int| 0 <= k < i ==> is_space(#[trigger] text@[k]),
        decreases len - i,
    {
        i += 1;
    }
    proof {
        lemma_run_is(text@, |c: char| is_space(c), i as nat);
    }
    i
}

/// Whether `text` begins with `word`.
pub fn starts_with(text: &str, word: &str) -> (b: bool)
    ensures
        b == word@.is_prefix_of(text@),
{
    let len = text.unicode_len();
    let n = word.unicode_len();
    if n > len {
        return false;
    }
    let mut i: usize = 0;
    while i < n
        invariant
            i <= n <= len,
            n == word@.len(),
            len == text@.len(),
            forall|k: int| 0 <= k < i ==> text@[k] == word@[k],
        decreases n - i,
    {
        if text.get_char(i) != word.get_char(i) {
            assert(text@.subrange(0, n as int)[i as int] != word@[i as int]);
            return false;
        }
        i += 1;
    }
    assert(text@.subrange(0, n as int) =~= word@);
    true
}

} // verus!
