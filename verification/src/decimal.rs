//! Whole numbers in decimal notation: how one is written, and which texts
//! are read as one.
use vstd::prelude::*;

use crate::text::is_digit;

verus! {

/// The character that stands for the digit `d`.
pub open spec fn digit_char(d: nat) -> char {
    if d == 0 {
        '0'
    } else if d == 1 {
        '1'
    } else if d == 2 {
        '2'
    } else if d == 3 {
        '3'
    } else if d == 4 {
        '4'
    } else if d == 5 {
        '5'
    } else if d == 6 {
        '6'
    } else if d == 7 {
        '7'
    } else if d == 8 {
        '8'
    } else {
        '9'
    }
}

/// A natural number in decimal notation, without leading zeros.
pub open spec fn decimal(n: nat) -> Seq<char>
    decreases n,
{
    if n < 10 {
        seq![digit_char(n)]
    } else {
        decimal(n / 10).push(digit_char(n % 10))
    }
}

/// An integer in decimal notation: a minus sign before a negative one.
pub open spec fn signed_decimal(i: int) -> Seq<char> {
    if i < 0 {
        seq!['-'] + decimal((-i) as nat)
    } else {
        decimal(i as nat)
    }
}

/// The character that stands for the digit `d`.
fn digit(d: u8) -> (c: char)
    requires
        d < 10,
    ensures
        c == digit_char(d as nat),
{
    if d == 0 {
        '0'
    } else if d == 1 {
        '1'
    } else if d == 2 {
        '2'
    } else if d == 3 {
        '3'
    } else if d == 4 {
        '4'
    } else if d == 5 {
        '5'
    } else if d == 6 {
        '6'
    } else if d == 7 {
        '7'
    } else if d == 8 {
        '8'
    } else {
        '9'
    }
}

/// Appends `n` in decimal notation to `s`.
pub fn push_decimal(s: &mut String, n: u128)
    ensures
        final(s)@ == old(s)@ + decimal(n as nat),
    decreases n,
{
    if n < 10 {
        s.push(digit(n as u8));
    } else {
        push_decimal(s, n / 10);
        s.push(digit((n % 10) as u8));
    }
}

/// `n` in decimal notation.
pub fn decimal_string(n: u128) -> (s: String)
    ensures
        s@ == decimal(n as nat),
{
    let mut s = String::new();
    push_decimal(&mut s, n);
    s
}

/// `i` in decimal notation.
pub fn signed_decimal_string(i: i128) -> (s: String)
    ensures
        s@ == signed_decimal(i as int),
{
    let mut s = String::new();
    if i < 0 {
        s.push('-');
        let magnitude: u128 = if i == i128::MIN {
            0x8000_0000_0000_0000_0000_0000_0000_0000u128
        } else {
            (-i) as u128
        };
        push_decimal(&mut s, magnitude);
    } else {
        push_decimal(&mut s, i as u128);
    }
    s
}

/// The digit that `c` stands for.
pub open spec fn digit_value(c: char) -> nat {
    (c as nat - '0' as nat) as nat
}

/// The number that a sequence of digits stands for.
pub open spec fn digits_value(s: Seq<char>) -> nat
    decreases s.len(),
{
    if s.len() == 0 {
        0
    } else {
        digits_value(s.drop_last()) * 10 + digit_value(s.last())
    }
}

/// Whether `s` holds digits only.
pub open spec fn all_digits(s: Seq<char>) -> bool {
    forall|i: int| 0 <= i < s.len() ==> is_digit(#[trigger] s[i])
}

/// Whether `s` begins with a sign.
pub open spec fn has_sign(s: Seq<char>) -> bool {
    s.len() > 0 && (s[0] == '+' || s[0] == '-')
}

/// The digits of a numeral: what follows its sign, if it has one.
pub open spec fn unsigned_part(s: Seq<char>) -> Seq<char> {
    if has_sign(s) {
        s.drop_first()
    } else {
        s
    }
}

/// The 64-bit integer that `s` is read as: an optional sign followed by one
/// digit or more and nothing else, leading zeros allowed, whose value lies
/// in the 64-bit range. Every other text is read as none.
pub open spec fn integer_of(s: Seq<char>) -> Option<int> {
    let body = unsigned_part(s);
    let value = if s.len() > 0 && s[0] == '-' {
        -(digits_value(body) as int)
    } else {
        digits_value(body) as int
    };
    if body.len() > 0 && all_digits(body) && i64::MIN <= value <= i64::MAX {
        Some(value)
    } else {
        None
    }
}

/// A sequence of digits stands for no less than any of its prefixes does.
pub proof fn lemma_digits_value_grows(s: Seq<char>, n: int)
    requires
        0 <= n <= s.len(),
    ensures
        digits_value(s.take(n)) <= digits_value(s),
    decreases s.len(),
{
    if n < s.len() {
        assert(s.drop_last().take(n) =~= s.take(n));
        lemma_digits_value_grows(s.drop_last(), n);
    } else {
        assert(s.take(n) =~= s);
    }
}

/// Reads `v` as a 64-bit integer.
pub fn parse_integer(v: &Vec<char>) -> (r: Option<i64>)
    ensures
        match r {
            Some(i) => integer_of(v@) == Some(i as int),
            None => integer_of(v@) is None,
        },
{
    if v.len() == 0 {
        return None;
    }
    let negative = v[0] == '-';
    let start: usize = if v[0] == '-' || v[0] == '+' {
        1
    } else {
        0
    };
    let ghost body = unsigned_part(v@);
    if start == v.len() {
        return None;
    }
    let limit: u128 = 0x8000_0000_0000_0000u128;
    let mut acc: u128 = 0;
    let mut i: usize = start;
    while i < v.len()
        invariant
            start <= i <= v.len(),
            body == v@.skip(start as int),
            body == unsigned_part(v@),
            limit == 0x8000_0000_0000_0000u128,
            acc <= limit,
            acc == digits_value(body.take(i - start)),
            all_digits(body.take(i - start)),
        decreases v.len() - i,
    {
        let c = v[i];
        let ghost seen = body.take(i - start);
        let ghost next = body.take(i - start + 1);
        assert(next.drop_last() =~= seen);
        if !(c >= '0' && c <= '9') {
            assert(body[i - start] == c);
            return None;
        }
        let d: u128 = (c as u32 - '0' as u32) as u128;
        acc = acc * 10 + d;
        if acc > limit {
            proof {
                lemma_digits_value_grows(body, i - start + 1);
            }
            return None;
        }
        i += 1;
    }
    assert(body.take(i - start) =~= body);
    if negative {
        if acc == limit {
            Some(i64::MIN)
        } else {
            Some(-(acc as i64))
        }
    } else {
        if acc == limit {
            None
        } else {
            Some(acc as i64)
        }
    }
}

} // verus!
