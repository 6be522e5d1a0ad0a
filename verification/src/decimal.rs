//! Whole numbers written out in decimal.

use vstd::prelude::*;
use vstd::string::StringExecFns;

verus! {

/// The character that stands for a digit value.
pub open spec fn digit(value: int) -> char {
    if value == 0 {
        '0'
    } else if value == 1 {
        '1'
    } else if value == 2 {
        '2'
    } else if value == 3 {
        '3'
    } else if value == 4 {
        '4'
    } else if value == 5 {
        '5'
    } else if value == 6 {
        '6'
    } else if value == 7 {
        '7'
    } else if value == 8 {
        '8'
    } else {
        '9'
    }
}

/// The digits of a natural number, the most significant first, without
/// leading zeros. Zero is the single digit `0`.
pub open spec fn digits(n: nat) -> Seq<char>
    decreases n,
{
    if n < 10 {
        seq![digit(n as int)]
    } else {
        digits(n / 10).push(digit((n % 10) as int))
    }
}

/// A whole number in decimal: its digits, with a minus sign in front if it
/// is below zero.
pub open spec fn decimal(v: int) -> Seq<char> {
    if v < 0 {
        seq!['-'] + digits((-v) as nat)
    } else {
        digits(v as nat)
    }
}

/// The characters of a run of digit values that was collected from the
/// least significant digit up, in the order in which they are written.
spec fn written(low_first: Seq<u8>) -> Seq<char>
    decreases low_first.len(),
{
    if low_first.len() == 0 {
        Seq::empty()
    } else {
        seq![digit(low_first.last() as int)] + written(low_first.drop_last())
    }
}

/// The text of one digit.
fn digit_text(value: u8) -> (res: &'static str)
    requires
        value < 10,
    ensures
        res@ == seq![digit(value as int)],
{
    proof {
        reveal_strlit("0");
        reveal_strlit("1");
        reveal_strlit("2");
        reveal_strlit("3");
        reveal_strlit("4");
        reveal_strlit("5");
        reveal_strlit("6");
        reveal_strlit("7");
        reveal_strlit("8");
        reveal_strlit("9");
    }
    let text = if value == 0 {
        "0"
    } else if value == 1 {
        "1"
    } else if value == 2 {
        "2"
    } else if value == 3 {
        "3"
    } else if value == 4 {
        "4"
    } else if value == 5 {
        "5"
    } else if value == 6 {
        "6"
    } else if value == 7 {
        "7"
    } else if value == 8 {
        "8"
    } else {
        "9"
    };
    text
}

/// Appends the decimal digits of `n` to `text`.
pub fn push_unsigned(text: &mut String, n: u64)
    ensures
        final(text)@ == old(text)@ + digits(n as nat),
{
    let mut low_first: Vec<u8> = Vec::new();
    let mut rest = n;
    while rest >= 10
        invariant
            digits(n as nat) == digits(rest as nat) + written(low_first@),
            forall|k: int| 0 <= k < low_first.len() ==> (#[trigger] low_first[k]) < 10,
        decreases rest,
    {
        let ghost before = low_first@;
        let low = (rest % 10) as u8;
        low_first.push(low);
        rest = rest / 10;
        proof {
            assert(low_first@.drop_last() == before);
        }
    }
    text.append(digit_text(rest as u8));
    let mut i = low_first.len();
    assert(low_first@.subrange(0, i as int) == low_first@);
    while i > 0
        invariant
            i <= low_first.len(),
            text@ + written(low_first@.subrange(0, i as int)) == old(text)@ + digits(n as nat),
            forall|k: int| 0 <= k < low_first.len() ==> (#[trigger] low_first[k]) < 10,
        decreases i,
    {
        let ghost left = low_first@.subrange(0, i as int);
        i -= 1;
        text.append(digit_text(low_first[i]));
        proof {
            assert(left.drop_last() == low_first@.subrange(0, i as int));
        }
    }
}

/// Appends `v` in decimal to `text`.
pub fn push_signed(text: &mut String, v: i64)
    ensures
        final(text)@ == old(text)@ + decimal(v as int),
{
    if v < 0 {
        proof {
            reveal_strlit("-");
        }
        text.append("-");
        let magnitude: u64 = ((-(v + 1)) as u64) + 1;
        push_unsigned(text, magnitude);
    } else {
        push_unsigned(text, v as u64);
    }
}

/// A natural number in decimal.
pub fn unsigned_text(n: u64) -> (res: String)
    ensures
        res@ == digits(n as nat),
{
    let mut text = String::new();
    push_unsigned(&mut text, n);
    text
}

/// A whole number in decimal.
pub fn integer_text(v: i64) -> (res: String)
    ensures
        res@ == decimal(v as int),
{
    let mut text = String::new();
    push_signed(&mut text, v);
    text
}

} // verus!
