//! A text taken apart: its lines, the words of a line, the first line or
//! word that carries a mark, and a pattern taken off an end.
use vstd::prelude::*;

use crate::text::{
    contains, has_infix, has_prefix, has_suffix, lemma_prefix_len_bounds, matches_at, prefix_len,
    run_end, slice_of, CharClass,
};

verus! {

/// The rows of a table of characters, each as a sequence.
pub open spec fn rows(list: Seq<Vec<char>>) -> Seq<Seq<char>> {
    list.map_values(|row: Vec<char>| row@)
}

/// A line without the carriage return at its end, if it has one.
pub open spec fn strip_cr(line: Seq<char>) -> Seq<char> {
    if line.len() > 0 && line.last() == '\r' {
        line.drop_last()
    } else {
        line
    }
}

/// The lines of a text. A line ends with a line feed, or with a carriage
/// return and a line feed, neither of which belongs to it; the last line
/// may end with the text, and then keeps a carriage return at its end. A
/// text that ends with a line feed has no empty line after it.
pub open spec fn lines(s: Seq<char>) -> Seq<Seq<char>>
    decreases s.len(),
{
    if s.len() == 0 {
        Seq::empty()
    } else {
        let n = prefix_len(s, CharClass::Not('\n'));
        if n < s.len() {
            seq![strip_cr(s.take(n as int))] + lines(s.skip(n as int + 1))
        } else {
            seq![s]
        }
    }
}

/// The words of a text: its longest runs of characters that are not white
/// space, in their order.
pub open spec fn words(s: Seq<char>) -> Seq<Seq<char>>
    decreases s.len(),
{
    if s.len() == 0 {
        Seq::empty()
    } else {
        let n = prefix_len(s, CharClass::NonSpace);
        if n == 0 {
            words(s.drop_first())
        } else {
            proof {
                lemma_prefix_len_bounds(s, CharClass::NonSpace);
            }
            seq![s.take(n as int)] + words(s.skip(n as int))
        }
    }
}

/// The lines of a text.
pub fn split_lines(v: &Vec<char>) -> (out: Vec<Vec<char>>)
    ensures
        rows(out@) == lines(v@),
{
    let mut out: Vec<Vec<char>> = Vec::new();
    let mut pos: usize = 0;
    assert(v@.skip(0) =~= v@);
    while pos < v.len()
        invariant
            pos <= v.len(),
            rows(out@) + lines(v@.skip(pos as int)) == lines(v@),
        decreases v.len() - pos,
    {
        let ghost rest = v@.skip(pos as int);
        let end = run_end(v, pos, v.len(), CharClass::Not('\n'));
        if end < v.len() {
            let stop = if end > pos && v[end - 1] == '\r' {
                end - 1
            } else {
                end
            };
            let line = slice_of(v, pos, stop);
            proof {
                let raw = rest.take(end - pos);
                assert(line@ =~= strip_cr(raw));
                assert(rest.skip(end - pos + 1) =~= v@.skip(end + 1));
            }
            out.push(line);
            pos = end + 1;
        } else {
            let line = slice_of(v, pos, end);
            out.push(line);
            pos = end;
        }
    }
    out
}

/// The words of a text.
pub fn split_words(v: &Vec<char>) -> (out: Vec<Vec<char>>)
    ensures
        rows(out@) == words(v@),
{
    let mut out: Vec<Vec<char>> = Vec::new();
    let mut pos: usize = 0;
    assert(v@.skip(0) =~= v@);
    while pos < v.len()
        invariant
            pos <= v.len(),
            rows(out@) + words(v@.skip(pos as int)) == words(v@),
        decreases v.len() - pos,
    {
        let ghost rest = v@.skip(pos as int);
        let end = run_end(v, pos, v.len(), CharClass::NonSpace);
        if end > pos {
            let word = slice_of(v, pos, end);
            proof {
                assert(word@ =~= rest.take(end - pos));
                assert(rest.skip(end - pos) =~= v@.skip(end as int));
            }
            out.push(word);
            pos = end;
        } else {
            assert(rest.drop_first() =~= v@.skip(pos + 1));
            pos += 1;
        }
    }
    out
}

/// How a line or a word is recognised by a pattern.
#[derive(Debug, Clone, Copy, PartialEq, Eq, Structural)]
pub enum Mark {
    /// It begins with the pattern.
    Prefix,
    /// It holds the pattern somewhere.
    Infix,
}

/// Whether `line` carries the pattern in the way that `mark` says.
pub open spec fn marked(line: Seq<char>, pat: Seq<char>, mark: Mark) -> bool {
    match mark {
        Mark::Prefix => has_prefix(line, pat),
        Mark::Infix => has_infix(line, pat),
    }
}

/// The position of the first row that carries the mark, or the number of
/// rows where none does.
pub open spec fn first_marked(list: Seq<Seq<char>>, pat: Seq<char>, mark: Mark) -> nat
    decreases list.len(),
{
    if list.len() > 0 && !marked(list[0], pat, mark) {
        1 + first_marked(list.drop_first(), pat, mark)
    } else {
        0
    }
}

/// The first row that carries the mark, if one does.
pub open spec fn find_marked(list: Seq<Seq<char>>, pat: Seq<char>, mark: Mark) -> Option<Seq<char>> {
    if first_marked(list, pat, mark) < list.len() {
        Some(list[first_marked(list, pat, mark) as int])
    } else {
        None
    }
}

/// `n` rows without the mark, followed by the end of the list or by a row
/// that carries it: then `n` is the position of the first marked row.
pub proof fn lemma_first_marked_is(list: Seq<Seq<char>>, pat: Seq<char>, mark: Mark, n: int)
    requires
        0 <= n <= list.len(),
        forall|j: int| 0 <= j < n ==> !marked(#[trigger] list[j], pat, mark),
        n < list.len() ==> marked(list[n], pat, mark),
    ensures
        first_marked(list, pat, mark) == n,
    decreases n,
{
    if n > 0 {
        let t = list.drop_first();
        lemma_first_marked_is(t, pat, mark, n - 1);
    }
}

/// The position of the first row that carries the mark, or the number of
/// rows.
pub fn position_marked(list: &Vec<Vec<char>>, pat: &Vec<char>, mark: Mark) -> (i: usize)
    ensures
        i <= list.len(),
        i == first_marked(rows(list@), pat@, mark),
{
    let mut i: usize = 0;
    while i < list.len()
        invariant
            i <= list.len(),
            forall|j: int| 0 <= j < i ==> !marked(#[trigger] rows(list@)[j], pat@, mark),
        decreases list.len() - i,
    {
        let hit = match mark {
            Mark::Prefix => matches_at(&list[i], pat, 0),
            Mark::Infix => contains(&list[i], pat),
        };
        if hit {
            proof {
                lemma_first_marked_is(rows(list@), pat@, mark, i as int);
            }
            return i;
        }
        i += 1;
    }
    proof {
        lemma_first_marked_is(rows(list@), pat@, mark, i as int);
    }
    i
}

/// `s` without the pattern at its start, as often as it stands there. The
/// empty pattern takes nothing off.
pub open spec fn strip_prefixes(s: Seq<char>, pat: Seq<char>) -> Seq<char>
    decreases s.len(),
{
    if pat.len() > 0 && has_prefix(s, pat) {
        strip_prefixes(s.skip(pat.len() as int), pat)
    } else {
        s
    }
}

/// `s` without the pattern at its end, as often as it stands there. The
/// empty pattern takes nothing off.
pub open spec fn strip_suffixes(s: Seq<char>, pat: Seq<char>) -> Seq<char>
    decreases s.len(),
{
    if pat.len() > 0 && has_suffix(s, pat) {
        strip_suffixes(s.take(s.len() - pat.len()), pat)
    } else {
        s
    }
}

/// Where `v` begins once the pattern is taken off its start as often as it
/// stands there.
pub fn skip_prefixes(v: &Vec<char>, pat: &Vec<char>) -> (i: usize)
    ensures
        i <= v.len(),
        v@.skip(i as int) == strip_prefixes(v@, pat@),
{
    assert(v@.skip(0) =~= v@);
    if pat.len() == 0 {
        return 0;
    }
    let mut i: usize = 0;
    loop
        invariant
            i <= v.len(),
            pat.len() > 0,
            strip_prefixes(v@.skip(i as int), pat@) == strip_prefixes(v@, pat@),
        ensures
            i <= v.len(),
            v@.skip(i as int) == strip_prefixes(v@, pat@),
        decreases v.len() - i,
    {
        let ghost rest = v@.skip(i as int);
        let hit = matches_at(v, pat, i);
        proof {
            if i + pat.len() <= v.len() {
                assert(rest.subrange(0, pat.len() as int) =~= v@.subrange(
                    i as int,
                    i + pat.len(),
                ));
            }
        }
        if !hit {
            break ;
        }
        assert(rest.skip(pat.len() as int) =~= v@.skip(i + pat.len()));
        i += pat.len();
    }
    i
}

/// Where `v` ends once the pattern is taken off its end as often as it
/// stands there.
pub fn skip_suffixes(v: &Vec<char>, pat: &Vec<char>) -> (to: usize)
    ensures
        to <= v.len(),
        v@.take(to as int) == strip_suffixes(v@, pat@),
{
    assert(v@.take(v.len() as int) =~= v@);
    if pat.len() == 0 {
        return v.len();
    }
    let mut to: usize = v.len();
    loop
        invariant
            to <= v.len(),
            pat.len() > 0,
            strip_suffixes(v@.take(to as int), pat@) == strip_suffixes(v@, pat@),
        ensures
            to <= v.len(),
            v@.take(to as int) == strip_suffixes(v@, pat@),
        decreases to,
    {
        let ghost front = v@.take(to as int);
        if to < pat.len() {
            break ;
        }
        let hit = matches_at(v, pat, to - pat.len());
        proof {
            assert(front.subrange(to - pat.len(), to as int) =~= v@.subrange(
                to - pat.len(),
                to as int,
            ));
        }
        if !hit {
            break ;
        }
        assert(front.take(front.len() - pat.len()) =~= v@.take(to - pat.len()));
        to -= pat.len();
    }
    to
}

} // verus!
