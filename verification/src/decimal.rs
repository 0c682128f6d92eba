//! Decimal notation: the number that a run of digits denotes, and the digits of a number.

use vstd::prelude::*;
use vstd::string::*;
use crate::chars::is_digit;

verus! {

/// The number that the decimal digits `s` denote; 0 for the empty text.
pub open spec fn value(s: Seq<char>) -> nat
    decreases s.len(),
{
    if s.len() == 0 {
        0
    } else {
        value(s.drop_last()) * 10 + (s.last() as nat - '0' as nat) as nat
    }
}

/// The character that stands for the digit `d`.
pub open spec fn digit_char(d: nat) -> char {
    ('0' as u8 + d as u8) as char
}

/// `n` in decimal notation, without leading zeros.
pub open spec fn decimal(n: nat) -> Seq<char>
    decreases n,
{
    if n < 10 {
        seq![digit_char(n)]
    } else {
        decimal(n / 10).push(digit_char(n % 10))
    }
}

/// `i` in decimal notation, with a minus sign in front of a negative number.
pub open spec fn signed_decimal(i: int) -> Seq<char> {
    if i < 0 {
        seq!['-'] + decimal((-i) as nat)
    } else {
        decimal(i as nat)
    }
}

/// A longer prefix of a run of digits denotes no smaller a number.
pub proof fn lemma_value_grows(s: Seq<char>, i: int, j: int)
    requires
        0 <= i <= j <= s.len(),
        forall|k: int| 0 <= k < s.len() ==> is_digit(#[trigger] s[k]),
    ensures
        value(s.take(i)) <= value(s.take(j)),
    decreases j - i,
{
    if i < j {
        lemma_value_grows(s, i, j - 1);
        assert(s.take(j).drop_last() =~= s.take(j - 1));
    }
}

/// Decimal notation holds digits only, and denotes the number it was made from.
pub proof fn lemma_decimal_value(n: nat)
    ensures
        decimal(n).len() > 0,
        forall|k: int| 0 <= k < decimal(n).len() ==> is_digit(#[trigger] decimal(n)[k]),
        value(decimal(n)) == n,
    decreases n,
{
    if n < 10 {
        let s = decimal(n);
        assert(s.drop_last() =~= Seq::<char>::empty());
        assert(value(s.drop_last()) == 0);
    } else {
        lemma_decimal_value(n / 10);
        let s = decimal(n);
        assert(s.drop_last() =~= decimal(n / 10));
        assert(s.last() == digit_char(n % 10));
    }
}

/// The value of the digit `c`.
fn digit_value(c: char) -> (d: u32)
    requires
        is_digit(c),
    ensures
        d == c as nat - '0' as nat,
        d <= 9,
{
    c as u32 - '0' as u32
}

/// The number that the first `n` characters of `text` denote, if it fits an `i32`.
pub(crate) fn parse_digits(text: &str, n: usize) -> (number: Option<i32>)
    requires
        n <= text@.len(),
        forall|k: int| 0 <= k < n ==> is_digit(#[trigger] text@[k]),
    ensures
        number == if value(text@.take(n as int)) <= i32::MAX {
            Some(value(text@.take(n as int)) as i32)
        } else {
            None
        },
{
    let ghost run = text@.take(n as int);
    let mut acc: u32 = 0;
    let mut i: usize = 0;
    proof {
        assert(run.take(0) =~= Seq::<char>::empty());
    }
    while i < n
        invariant
            i <= n <= text@.len(),
            run == text@.take(n as int),
            forall|k: int| 0 <= k < run.len() ==> is_digit(#[trigger] run[k]),
            acc == value(run.take(i as int)),
            acc <= i32::MAX,
        decreases n - i,
    {
        assert(run[i as int] == text@[i as int]);
        let d = digit_value(text.get_char(i));
        proof {
            assert(run.take(i + 1).drop_last() =~= run.take(i as int));
            assert(run.take(i + 1).last() == text@[i as int]);
            assert(value(run.take(i + 1)) == acc * 10 + d);
            lemma_value_grows(run, i + 1, n as int);
            assert(run.take(n as int) =~= run);
        }
        if acc > (i32::MAX as u32 - d) / 10 {
            return None;
        }
        acc = acc * 10 + d;
        i += 1;
    }
    proof {
        assert(run.take(n as int) =~= run);
    }
    Some(acc as i32)
}

/// The text of a single digit.
fn digit_text(d: u32) -> (text: &'static str)
    requires
        d <= 9,
    ensures
        text@ == seq![digit_char(d as nat)],
{
    proof {
        reveal_strlit("0");
        reveal_strlit("1");
        reveal_strlit("2");
        reveal_strlit("3");
        reveal_strlit("4");
        reveal_strlit("5");
        reveal_strlit("6");
        reveal_strlit("7");
        reveal_strlit("8");
        reveal_strlit("9");
    }
    let text = if d == 0 {
        "0"
    } else if d == 1 {
        "1"
    } else if d == 2 {
        "2"
    } else if d == 3 {
        "3"
    } else if d == 4 {
        "4"
    } else if d == 5 {
        "5"
    } else if d == 6 {
        "6"
    } else if d == 7 {
        "7"
    } else if d == 8 {
        "8"
    } else {
        "9"
    };
    assert(text@ =~= seq![digit_char(d as nat)]);
    text
}

/// Appends `n` in decimal notation to `out`.
pub fn push_decimal(out: &mut String, n: u64)
    ensures
        final(out)@ == old(out)@ + decimal(n as nat),
    decreases n,
{
    if n >= 10 {
        push_decimal(out, n / 10);
    }
    out.append(digit_text((n % 10) as u32));
    proof {
        let d = seq![digit_char((n % 10) as nat)];
        if n >= 10 {
            assert(old(out)@ + decimal((n / 10) as nat) + d =~= old(out)@ + decimal(n as nat));
        }
    }
}

/// Appends `i` in decimal notation to `out`.
pub fn push_signed_decimal(out: &mut String, i: i32)
    ensures
        final(out)@ == old(out)@ + signed_decimal(i as int),
{
    if i < 0 {
        proof {
            reveal_strlit("-");
        }
        out.append("-");
        push_decimal(out, (-(i as i64)) as u64);
        assert(old(out)@ + "-"@ + decimal((-i) as nat) =~= old(out)@ + signed_decimal(i as int));
    } else {
        push_decimal(out, i as u64);
    }
}

} // verus!
