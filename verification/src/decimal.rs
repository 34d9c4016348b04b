//! Decimal notation: rendering small unsigned numbers and reading signed
//! eight-bit integers.

use vstd::prelude::*;
use crate::text::chars_of;

verus! {

/// The character that writes the digit `d`.
pub open spec fn digit_char(d: int) -> char {
    if d == 0 {
        '0'
    } else if d == 1 {
        '1'
    } else if d == 2 {
        '2'
    } else if d == 3 {
        '3'
    } else if d == 4 {
        '4'
    } else if d == 5 {
        '5'
    } else if d == 6 {
        '6'
    } else if d == 7 {
        '7'
    } else if d == 8 {
        '8'
    } else {
        '9'
    }
}

/// The digit that `c` writes, if it writes one.
pub open spec fn digit_value(c: char) -> Option<int> {
    if c == '0' {
        Some(0)
    } else if c == '1' {
        Some(1)
    } else if c == '2' {
        Some(2)
    } else if c == '3' {
        Some(3)
    } else if c == '4' {
        Some(4)
    } else if c == '5' {
        Some(5)
    } else if c == '6' {
        Some(6)
    } else if c == '7' {
        Some(7)
    } else if c == '8' {
        Some(8)
    } else if c == '9' {
        Some(9)
    } else {
        None
    }
}

/// `n` in decimal, without sign and without leading zeros.
pub open spec fn decimal(n: nat) -> Seq<char>
    decreases n,
{
    if n < 10 {
        seq![digit_char(n as int)]
    } else {
        decimal(n / 10).push(digit_char((n % 10) as int))
    }
}

/// True when `s` is made of decimal digits only.
pub open spec fn all_digits(s: Seq<char>) -> bool {
    forall|i: int| 0 <= i < s.len() ==> digit_value(#[trigger] s[i]) is Some
}

/// The number that the digit string `s` writes.
pub open spec fn digits_value(s: Seq<char>) -> int
    decreases s.len(),
{
    if s.len() == 0 {
        0
    } else {
        digits_value(s.drop_last()) * 10 + digit_value(s.last()).unwrap()
    }
}

/// The eight-bit integer that `s` writes: an optional `+` or `-`, then at
/// least one decimal digit, the whole within `-128..=127`. Anything else
/// writes none.
pub open spec fn parsed_i8(s: Seq<char>) -> Option<i8> {
    let negative = s.len() > 0 && s[0] == '-';
    let signed = s.len() > 0 && (s[0] == '-' || s[0] == '+');
    let digits = if signed {
        s.skip(1)
    } else {
        s
    };
    let magnitude = digits_value(digits);
    let value = if negative {
        -magnitude
    } else {
        magnitude
    };
    if digits.len() == 0 || !all_digits(digits) || value < -128 || value > 127 {
        None
    } else {
        Some(value as i8)
    }
}

fn digit_of(c: char) -> (d: Option<u8>)
    ensures
        match d {
            Some(v) => digit_value(c) == Some(v as int),
            None => digit_value(c) is None,
        },
{
    if c == '0' {
        Some(0)
    } else if c == '1' {
        Some(1)
    } else if c == '2' {
        Some(2)
    } else if c == '3' {
        Some(3)
    } else if c == '4' {
        Some(4)
    } else if c == '5' {
        Some(5)
    } else if c == '6' {
        Some(6)
    } else if c == '7' {
        Some(7)
    } else if c == '8' {
        Some(8)
    } else if c == '9' {
        Some(9)
    } else {
        None
    }
}

fn char_of_digit(d: u8) -> (c: char)
    requires
        d < 10,
    ensures
        c == digit_char(d as int),
{
    if d == 0 {
        '0'
    } else if d == 1 {
        '1'
    } else if d == 2 {
        '2'
    } else if d == 3 {
        '3'
    } else if d == 4 {
        '4'
    } else if d == 5 {
        '5'
    } else if d == 6 {
        '6'
    } else if d == 7 {
        '7'
    } else if d == 8 {
        '8'
    } else {
        '9'
    }
}

/// Writes `n` in decimal.
pub fn u8_to_decimal(n: u8) -> (out: String)
    ensures
        out@ == decimal(n as nat),
{
    let mut out = String::new();
    if n >= 100 {
        out.push(char_of_digit(n / 100));
    }
    if n >= 10 {
        out.push(char_of_digit((n / 10) % 10));
    }
    out.push(char_of_digit(n % 10));
    proof {
        reveal_with_fuel(decimal, 3);
        assert(out@ =~= decimal(n as nat));
    }
    out
}

/// Reads an eight-bit integer written in decimal.
#[verifier::loop_isolation(false)]
pub fn parse_i8(s: &str) -> (value: Option<i8>)
    ensures
        value == parsed_i8(s@),
{
    let text = chars_of(s);
    let negative = text.len() > 0 && text[0] == '-';
    let signed = text.len() > 0 && (text[0] == '-' || text[0] == '+');
    let start: usize = if signed {
        1
    } else {
        0
    };
    if start == text.len() {
        return None;
    }
    let ghost digits = if signed {
        s@.skip(1)
    } else {
        s@
    };
    let mut magnitude: i32 = 0;
    let mut at: usize = start;
    while at < text.len()
        invariant
            start <= at <= text.len(),
            text@ == s@,
            digits == s@.skip(start as int),
            all_digits(digits.take(at - start)),
            0 <= magnitude <= 1000,
            digits_value(digits.take(at - start)) >= 0,
            digits_value(digits.take(at - start)) < 1000 ==> magnitude == digits_value(
                digits.take(at - start),
            ),
            digits_value(digits.take(at - start)) >= 1000 ==> magnitude == 1000,
        decreases text.len() - at,
    {
        let ghost seen = digits.take(at - start);
        let ghost next = digits.take(at - start + 1);
        assert(next.drop_last() == seen);
        assert(next.last() == text@[at as int]);
        match digit_of(text[at]) {
            None => {
                assert(!all_digits(digits)) by {
                    assert(digits[at - start] == text@[at as int]);
                    assert(digit_value(digits[at - start]) is None);
                }
                return None;
            },
            Some(d) => {
                assert forall|i: int| 0 <= i < next.len() implies digit_value(
                    #[trigger] next[i],
                ) is Some by {
                    if i < seen.len() {
                        assert(next[i] == seen[i]);
                    }
                }
                magnitude = magnitude * 10 + d as i32;
                if magnitude > 1000 {
                    magnitude = 1000;
                }
            },
        }
        at += 1;
    }
    assert(digits.take(text.len() - start) == digits);
    if negative {
        if magnitude > 128 {
            None
        } else {
            Some((-magnitude) as i8)
        }
    } else {
        if magnitude > 127 {
            None
        } else {
            Some(magnitude as i8)
        }
    }
}

} // verus!
