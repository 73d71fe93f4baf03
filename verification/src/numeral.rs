//! Which texts are numerals with a fraction or an exponent. The grammar is
//! the one by which Rust reads a floating-point number from a string.
use vstd::prelude::*;

use crate::decimal::{all_digits, unsigned_part};
use crate::text::{lemma_prefix_len_full, prefix_len, run_end, CharClass};

verus! {

/// `c` in lower case, where it is one of the letters `A` to `Z`.
pub open spec fn ascii_lower(c: char) -> char {
    if 'A' <= c <= 'Z' {
        ((c as u8) + 32) as char
    } else {
        c
    }
}

/// Whether `s` is `word`, whatever the case of its letters. `word` is in
/// lower case.
pub open spec fn folds_to(s: Seq<char>, word: Seq<char>) -> bool {
    s.len() == word.len() && forall|i: int|
        0 <= i < s.len() ==> ascii_lower(#[trigger] s[i]) == word[i]
}

/// Whether `s` names a number that is no decimal: infinity, or not a number.
pub open spec fn is_special(s: Seq<char>) -> bool {
    ||| folds_to(s, seq!['i', 'n', 'f'])
    ||| folds_to(s, seq!['i', 'n', 'f', 'i', 'n', 'i', 't', 'y'])
    ||| folds_to(s, seq!['n', 'a', 'n'])
}

/// Whether `s` is an exponent or nothing: `e` or `E`, an optional sign, and
/// one digit or more.
pub open spec fn is_exponent(s: Seq<char>) -> bool {
    s.len() == 0 || {
        &&& s[0] == 'e' || s[0] == 'E'
        &&& unsigned_part(s.drop_first()).len() > 0
        &&& all_digits(unsigned_part(s.drop_first()))
    }
}

/// The number of digits with which `s` begins.
pub open spec fn digit_run(s: Seq<char>) -> nat {
    prefix_len(s, CharClass::Digit)
}

/// What follows the whole part of a decimal.
pub open spec fn after_whole(s: Seq<char>) -> Seq<char> {
    s.skip(digit_run(s) as int)
}

/// Whether a decimal has a point after its whole part.
pub open spec fn has_point(s: Seq<char>) -> bool {
    after_whole(s).len() > 0 && after_whole(s)[0] == '.'
}

/// What follows the point of a decimal, or its whole part where it has no
/// point.
pub open spec fn after_point(s: Seq<char>) -> Seq<char> {
    if has_point(s) {
        after_whole(s).drop_first()
    } else {
        after_whole(s)
    }
}

/// The number of digits of the fraction.
pub open spec fn fraction_run(s: Seq<char>) -> nat {
    if has_point(s) {
        digit_run(after_point(s))
    } else {
        0
    }
}

/// Whether `s` is a decimal: digits, of which a point may stand before,
/// between or after, at least one digit in all, and then an exponent or
/// nothing.
pub open spec fn is_decimal(s: Seq<char>) -> bool {
    &&& digit_run(s) + fraction_run(s) > 0
    &&& is_exponent(after_point(s).skip(fraction_run(s) as int))
}

/// Whether `s` is a numeral: an optional sign, and then a decimal or the
/// name of a special number.
pub open spec fn is_numeral(s: Seq<char>) -> bool {
    is_decimal(unsigned_part(s)) || is_special(unsigned_part(s))
}

/// Whether `c` is a sign.
fn is_sign(c: char) -> (b: bool)
    ensures
        b == (c == '+' || c == '-'),
{
    c == '+' || c == '-'
}

/// `c` in lower case, where it is one of the letters `A` to `Z`.
fn lower(c: char) -> (r: char)
    ensures
        r == ascii_lower(c),
{
    if c >= 'A' && c <= 'Z' {
        ((c as u8) + 32) as char
    } else {
        c
    }
}

/// Whether `v[from..]` is `word`, whatever the case of its letters.
fn folds(v: &Vec<char>, from: usize, word: &Vec<char>) -> (b: bool)
    requires
        from <= v.len(),
    ensures
        b == folds_to(v@.skip(from as int), word@),
{
    let ghost s = v@.skip(from as int);
    if v.len() - from != word.len() {
        return false;
    }
    let mut i: usize = 0;
    while i < word.len()
        invariant
            i <= word.len(),
            from + word.len() == v.len(),
            s == v@.skip(from as int),
            forall|j: int| 0 <= j < i ==> ascii_lower(#[trigger] s[j]) == word@[j],
        decreases word.len() - i,
    {
        assert(s[i as int] == v@[from + i]);
        if lower(v[from + i]) != word[i] {
            return false;
        }
        i += 1;
    }
    true
}

/// Whether `v[from..]` names a special number.
fn special(v: &Vec<char>, from: usize) -> (b: bool)
    requires
        from <= v.len(),
    ensures
        b == is_special(v@.skip(from as int)),
{
    let inf: Vec<char> = vec!['i', 'n', 'f'];
    let infinity: Vec<char> = vec!['i', 'n', 'f', 'i', 'n', 'i', 't', 'y'];
    let nan: Vec<char> = vec!['n', 'a', 'n'];
    folds(v, from, &inf) || folds(v, from, &infinity) || folds(v, from, &nan)
}

/// Whether `v[from..]` is an exponent or nothing.
fn exponent(v: &Vec<char>, from: usize) -> (b: bool)
    requires
        from <= v.len(),
    ensures
        b == is_exponent(v@.skip(from as int)),
{
    let ghost s = v@.skip(from as int);
    if from == v.len() {
        return true;
    }
    if !(v[from] == 'e' || v[from] == 'E') {
        return false;
    }
    let ghost signed = s.drop_first();
    let first: usize = if from + 1 < v.len() && is_sign(v[from + 1]) {
        from + 2
    } else {
        from + 1
    };
    let ghost digits = unsigned_part(signed);
    assert(digits =~= v@.skip(first as int));
    let end = run_end(v, first, v.len(), CharClass::Digit);
    proof {
        lemma_prefix_len_full(digits, CharClass::Digit);
    }
    first < v.len() && end == v.len()
}

/// Whether `v` is a numeral.
pub fn is_numeral_text(v: &Vec<char>) -> (b: bool)
    ensures
        b == is_numeral(v@),
{
    let start: usize = if v.len() > 0 && is_sign(v[0]) {
        1
    } else {
        0
    };
    let ghost body = unsigned_part(v@);
    let whole_end = run_end(v, start, v.len(), CharClass::Digit);
    assert(v@.subrange(start as int, v.len() as int) =~= body);
    let pointed = whole_end < v.len() && v[whole_end] == '.';
    assert(pointed == has_point(body));
    let fraction_start: usize = if pointed {
        whole_end + 1
    } else {
        whole_end
    };
    let fraction_end: usize = if pointed {
        run_end(v, fraction_start, v.len(), CharClass::Digit)
    } else {
        fraction_start
    };
    assert(v@.subrange(fraction_start as int, v.len() as int) =~= after_point(body));
    assert(after_point(body).skip(fraction_run(body) as int) =~= v@.skip(fraction_end as int));
    let digits: usize = (whole_end - start) + (fraction_end - fraction_start);
    if digits > 0 && exponent(v, fraction_end) {
        true
    } else {
        special(v, start)
    }
}

} // verus!
