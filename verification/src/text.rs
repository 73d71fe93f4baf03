//! Strings as sequences of characters: runs of a class of characters,
//! patterns, and what is taken off the ends of a text. Every contract is
//! stated over `Seq<char>`, the view of `str` and `String`.
//!
//! Six functions of the standard library are used as they are. What is
//! said of them below is believed, not proved.
use vstd::prelude::*;

verus! {

/// Whether `c` is white space in the sense of Unicode: whether it is in the
/// set `White_Space`. Which characters are is not said here.
pub uninterp spec fn is_whitespace(c: char) -> bool;

/// Believed of `char::is_whitespace`: it tells whether the character is in
/// Unicode's `White_Space`, and tells the same of the same character every
/// time.
pub assume_specification[ char::is_whitespace ](c: char) -> (b: bool)
    ensures
        b == is_whitespace(c),
;

/// Whether `c` is numeric in the sense of Unicode: of one of the general
/// categories `Nd`, `Nl` and `No`. Which characters are is not said here.
pub uninterp spec fn is_numeric(c: char) -> bool;

/// Believed of `char::is_numeric`: it tells whether the character is of
/// one of the general categories `Nd`, `Nl` and `No`, and tells the same of
/// the same character every time.
pub assume_specification[ char::is_numeric ](c: char) -> (b: bool)
    ensures
        b == is_numeric(c),
;

/// The upper-case form of a text under Unicode's case mappings. What it
/// is for a given text is not said here.
pub uninterp spec fn uppercase(s: Seq<char>) -> Seq<char>;

/// The lower-case form of a text under Unicode's case mappings. What it
/// is for a given text is not said here.
pub uninterp spec fn lowercase(s: Seq<char>) -> Seq<char>;

/// Believed of `str::to_uppercase`: the string it returns is the upper-case
/// form of the text, which depends on the text alone.
pub assume_specification[ str::to_uppercase ](s: &str) -> (r: String)
    ensures
        r@ == uppercase(s@),
;

/// Believed of `str::to_lowercase`: the string it returns is the lower-case
/// form of the text, which depends on the text alone.
pub assume_specification[ str::to_lowercase ](s: &str) -> (r: String)
    ensures
        r@ == lowercase(s@),
;

/// Believed of the equality of string slices, `str::eq`: two slices are
/// equal exactly when they hold the same characters in the same order.
pub assume_specification[ <str as PartialEq>::eq ](a: &str, b: &str) -> (r: bool)
    ensures
        r == (a@ == b@),
;

/// Believed of `String::push`: it appends the character at the end of the
/// string and changes nothing else.
pub assume_specification[ String::push ](s: &mut String, c: char)
    ensures
        final(s)@ == old(s)@.push(c),
;

/// Whether `c` is one of the digits `0` to `9`.
pub open spec fn is_digit(c: char) -> bool {
    '0' <= c <= '9'
}

/// A set of characters that a run is made of.
#[derive(Clone, Copy, Debug)]
pub enum CharClass {
    /// The one character given.
    Is(char),
    /// Every character but the one given.
    Not(char),
    /// The characters that are white space.
    Space,
    /// The characters that are not.
    NonSpace,
    /// The digits `0` to `9`.
    Digit,
}

impl CharClass {
    /// Whether `c` is in the class.
    pub open spec fn holds(self, c: char) -> bool {
        match self {
            CharClass::Is(d) => c == d,
            CharClass::Not(d) => c != d,
            CharClass::Space => is_whitespace(c),
            CharClass::NonSpace => !is_whitespace(c),
            CharClass::Digit => is_digit(c),
        }
    }

    /// Whether `c` is in the class.
    pub fn test(self, c: char) -> (b: bool)
        ensures
            b == self.holds(c),
    {
        match self {
            CharClass::Is(d) => c == d,
            CharClass::Not(d) => c != d,
            CharClass::Space => c.is_whitespace(),
            CharClass::NonSpace => !c.is_whitespace(),
            CharClass::Digit => c >= '0' && c <= '9',
        }
    }
}

/// The length of the longest prefix of `s` whose characters are all in `k`.
pub open spec fn prefix_len(s: Seq<char>, k: CharClass) -> nat
    decreases s.len(),
{
    if s.len() > 0 && k.holds(s[0]) {
        1 + prefix_len(s.drop_first(), k)
    } else {
        0
    }
}

/// The length of the longest suffix of `s` whose characters are all in `k`.
pub open spec fn suffix_len(s: Seq<char>, k: CharClass) -> nat
    decreases s.len(),
{
    if s.len() > 0 && k.holds(s.last()) {
        1 + suffix_len(s.drop_last(), k)
    } else {
        0
    }
}

/// A prefix of `n` characters in `k`, followed by the end of `s` or by a
/// character outside `k`, is the longest one.
pub proof fn lemma_prefix_len_is(s: Seq<char>, k: CharClass, n: int)
    requires
        0 <= n <= s.len(),
        forall|j: int| 0 <= j < n ==> k.holds(#[trigger] s[j]),
        n < s.len() ==> !k.holds(s[n]),
    ensures
        prefix_len(s, k) == n,
    decreases n,
{
    if n > 0 {
        let t = s.drop_first();
        lemma_prefix_len_is(t, k, n - 1);
    }
}

/// What the longest prefix in `k` is: it lies within `s`, holds only
/// characters of `k`, and cannot be made longer.
pub proof fn lemma_prefix_len_bounds(s: Seq<char>, k: CharClass)
    ensures
        prefix_len(s, k) <= s.len(),
        forall|j: int| 0 <= j < prefix_len(s, k) ==> k.holds(#[trigger] s[j]),
        prefix_len(s, k) < s.len() ==> !k.holds(s[prefix_len(s, k) as int]),
    decreases s.len(),
{
    if s.len() > 0 && k.holds(s[0]) {
        let t = s.drop_first();
        lemma_prefix_len_bounds(t, k);
        assert forall|j: int| 0 <= j < prefix_len(s, k) implies k.holds(#[trigger] s[j]) by {
            if j > 0 {
                assert(s[j] == t[j - 1]);
            }
        }
    }
}

/// A suffix of `n` characters in `k`, preceded by the start of `s` or by a
/// character outside `k`, is the longest one.
pub proof fn lemma_suffix_len_is(s: Seq<char>, k: CharClass, n: int)
    requires
        0 <= n <= s.len(),
        forall|j: int| s.len() - n <= j < s.len() ==> k.holds(#[trigger] s[j]),
        n < s.len() ==> !k.holds(s[s.len() - n - 1]),
    ensures
        suffix_len(s, k) == n,
    decreases n,
{
    if n > 0 {
        let t = s.drop_last();
        lemma_suffix_len_is(t, k, n - 1);
    }
}

/// The characters of `s`, one by one.
pub fn chars_of(s: &str) -> (v: Vec<char>)
    ensures
        v@ == s@,
{
    let mut v: Vec<char> = Vec::new();
    for c in it: s.chars()
        invariant
            v@ == it.seq().take(it.index() as int),
            it.seq() == s@,
    {
        v.push(c);
    }
    v
}

/// The string made of the characters `v[from..to]`.
pub fn string_of(v: &Vec<char>, from: usize, to: usize) -> (s: String)
    requires
        from <= to <= v.len(),
    ensures
        s@ == v@.subrange(from as int, to as int),
{
    let mut s = String::new();
    let mut i: usize = from;
    while i < to
        invariant
            from <= i <= to <= v.len(),
            s@ == v@.subrange(from as int, i as int),
        decreases to - i,
    {
        s.push(v[i]);
        i += 1;
    }
    s
}

/// The string made of all the characters of `v`.
pub fn string_of_all(v: &Vec<char>) -> (s: String)
    ensures
        s@ == v@,
{
    assert(v@.subrange(0, v.len() as int) =~= v@);
    string_of(v, 0, v.len())
}

/// The end of the run of `k` that starts at `from`, within `v[from..to]`:
/// the first position that holds no character of `k`, or `to`.
pub fn run_end(v: &Vec<char>, from: usize, to: usize, k: CharClass) -> (i: usize)
    requires
        from <= to <= v.len(),
    ensures
        from <= i <= to,
        i == from + prefix_len(v@.subrange(from as int, to as int), k),
{
    let mut i: usize = from;
    while i < to && k.test(v[i])
        invariant
            from <= i <= to <= v.len(),
            forall|j: int| from <= j < i ==> k.holds(#[trigger] v@[j]),
        decreases to - i,
    {
        i += 1;
    }
    proof {
        let t = v@.subrange(from as int, to as int);
        lemma_prefix_len_is(t, k, i - from);
    }
    i
}

/// The start of the run of `k` that ends at `to`, within `v[from..to]`: the
/// position after the last character outside `k`, or `from`.
pub fn run_start(v: &Vec<char>, from: usize, to: usize, k: CharClass) -> (i: usize)
    requires
        from <= to <= v.len(),
    ensures
        from <= i <= to,
        i == to - suffix_len(v@.subrange(from as int, to as int), k),
{
    let mut i: usize = to;
    while i > from && k.test(v[i - 1])
        invariant
            from <= i <= to <= v.len(),
            forall|j: int| i <= j < to ==> k.holds(#[trigger] v@[j]),
        decreases i,
    {
        i -= 1;
    }
    proof {
        let t = v@.subrange(from as int, to as int);
        lemma_suffix_len_is(t, k, to - i);
    }
    i
}

/// `s` without its longest prefix in `k`.
pub open spec fn strip_start(s: Seq<char>, k: CharClass) -> Seq<char> {
    s.skip(prefix_len(s, k) as int)
}

/// `s` without its longest suffix in `k`.
pub open spec fn strip_end(s: Seq<char>, k: CharClass) -> Seq<char> {
    s.take(s.len() - suffix_len(s, k))
}

/// `s` without its longest prefix in `k` and, of what is left, without the
/// longest suffix in `k`.
pub open spec fn strip_both(s: Seq<char>, k: CharClass) -> Seq<char> {
    strip_end(strip_start(s, k), k)
}

/// `s` without the white space around it.
pub open spec fn trimmed(s: Seq<char>) -> Seq<char> {
    strip_both(s, CharClass::Space)
}

/// The bounds of `v` without the runs of `k` at its two ends.
pub fn strip_bounds(v: &Vec<char>, k: CharClass) -> (r: (usize, usize))
    ensures
        r.0 <= r.1 <= v.len(),
        v@.subrange(r.0 as int, r.1 as int) == strip_both(v@, k),
{
    let a = run_end(v, 0, v.len(), k);
    let b = run_start(v, a, v.len(), k);
    proof {
        assert(v@.subrange(0, v.len() as int) =~= v@);
    }
    (a, b)
}

/// A copy of the characters `v[from..to]`.
pub fn slice_of(v: &Vec<char>, from: usize, to: usize) -> (r: Vec<char>)
    requires
        from <= to <= v.len(),
    ensures
        r@ == v@.subrange(from as int, to as int),
{
    let mut r: Vec<char> = Vec::new();
    let mut i: usize = from;
    while i < to
        invariant
            from <= i <= to <= v.len(),
            r@ == v@.subrange(from as int, i as int),
        decreases to - i,
    {
        r.push(v[i]);
        i += 1;
    }
    r
}

/// `s` without the white space around it.
pub fn trim(s: &str) -> (r: String)
    ensures
        r@ == trimmed(s@),
{
    let v = chars_of(s);
    let (a, b) = strip_bounds(&v, CharClass::Space);
    string_of(&v, a, b)
}

/// Whether `pat` stands in `s` at position `i`.
pub open spec fn occurs_at(s: Seq<char>, pat: Seq<char>, i: int) -> bool {
    &&& 0 <= i
    &&& i + pat.len() <= s.len()
    &&& s.subrange(i, i + pat.len()) == pat
}

/// Whether `pat` stands somewhere in `s`. The empty pattern stands in every
/// string.
pub open spec fn has_infix(s: Seq<char>, pat: Seq<char>) -> bool {
    exists|i: int| occurs_at(s, pat, i)
}

/// Whether `s` begins with `pat`.
pub open spec fn has_prefix(s: Seq<char>, pat: Seq<char>) -> bool {
    occurs_at(s, pat, 0)
}

/// Whether `s` ends with `pat`.
pub open spec fn has_suffix(s: Seq<char>, pat: Seq<char>) -> bool {
    occurs_at(s, pat, s.len() - pat.len())
}

/// Whether `pat` stands in `v` at position `i`.
pub fn matches_at(v: &Vec<char>, pat: &Vec<char>, i: usize) -> (b: bool)
    ensures
        b == occurs_at(v@, pat@, i as int),
{
    if pat.len() > v.len() || i > v.len() - pat.len() {
        return false;
    }
    let mut j: usize = 0;
    while j < pat.len()
        invariant
            j <= pat.len(),
            i + pat.len() <= v.len(),
            forall|m: int| 0 <= m < j ==> v@[i + m] == #[trigger] pat@[m],
        decreases pat.len() - j,
    {
        if v[i + j] != pat[j] {
            return false;
        }
        j += 1;
    }
    assert(v@.subrange(i as int, i + pat.len()) =~= pat@);
    true
}

/// Whether `pat` stands somewhere in `v`.
pub fn contains(v: &Vec<char>, pat: &Vec<char>) -> (b: bool)
    ensures
        b == has_infix(v@, pat@),
{
    if pat.len() > v.len() {
        return false;
    }
    let last: usize = v.len() - pat.len();
    let mut i: usize = 0;
    while i < last
        invariant
            i <= last,
            last == v.len() - pat.len(),
            forall|m: int| 0 <= m < i ==> !occurs_at(v@, pat@, m),
        decreases last - i,
    {
        if matches_at(v, pat, i) {
            return true;
        }
        i += 1;
    }
    matches_at(v, pat, last)
}

/// Whether two string slices hold the same characters.
pub fn same_text(a: &str, b: &str) -> (r: bool)
    ensures
        r == (a@ == b@),
{
    a.eq(b)
}

/// The numeric characters of `s`, in their order.
pub open spec fn numerals(s: Seq<char>) -> Seq<char>
    decreases s.len(),
{
    if s.len() == 0 {
        s
    } else if is_numeric(s.last()) {
        numerals(s.drop_last()).push(s.last())
    } else {
        numerals(s.drop_last())
    }
}

/// The numeric characters of `v`, in their order.
pub fn keep_numeric(v: &Vec<char>) -> (r: Vec<char>)
    ensures
        r@ == numerals(v@),
{
    let mut r: Vec<char> = Vec::new();
    let mut i: usize = 0;
    while i < v.len()
        invariant
            i <= v.len(),
            r@ == numerals(v@.take(i as int)),
        decreases v.len() - i,
    {
        assert(v@.take(i + 1).drop_last() =~= v@.take(i as int));
        if v[i].is_numeric() {
            r.push(v[i]);
        }
        i += 1;
    }
    assert(v@.take(i as int) =~= v@);
    r
}

/// A prefix in `k` that covers all of `s` means that every character of
/// `s` is in `k`, and the other way round.
pub proof fn lemma_prefix_len_full(s: Seq<char>, k: CharClass)
    ensures
        prefix_len(s, k) == s.len() <==> (forall|j: int| 0 <= j < s.len() ==> k.holds(#[trigger] s[j])),
{
    lemma_prefix_len_bounds(s, k);
}

} // verus!
