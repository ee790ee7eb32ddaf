//! Small verified helpers on strings, seen as sequences of characters.

use vstd::prelude::*;
use crate::seqs::index_view;

verus! {

/// The characters of `s`, in order.
pub fn chars_of(s: &str) -> (v: Vec<char>)
    ensures
        v@ == s@,
{
    let mut v: Vec<char> = Vec::new();
    for c in it: s.chars()
        invariant
            it.seq() == s@,
            v@ == s@.take(it.index() as int),
    {
        v.push(c);
        assert(s@.take(it.index() + 1) =~= s@.take(it.index() as int).push(c));
    }
    assert(s@.take(s@.len() as int) =~= s@);
    v
}

/// Whether two string slices hold the same characters.
pub fn same_text(a: &str, b: &str) -> (r: bool)
    ensures
        r == (a@ == b@),
{
    let x = a.to_owned();
    let y = b.to_owned();
    x == y
}

/// The characters of `s` from index `from` up to, not including, index `to`.
pub fn slice_text(s: &str, from: usize, to: usize) -> (r: String)
    requires
        from <= to <= s@.len(),
    ensures
        r@ == s@.subrange(from as int, to as int),
{
    s.substring_char(from, to).to_owned()
}

/// `a` followed by `b`.
pub fn concat2(a: &str, b: &str) -> (r: String)
    ensures
        r@ == a@ + b@,
{
    let mut r = a.to_owned();
    r.append(b);
    r
}

/// `a` followed by `b` and then `c`.
pub fn concat3(a: &str, b: &str, c: &str) -> (r: String)
    ensures
        r@ == a@ + b@ + c@,
{
    let mut r = a.to_owned();
    r.append(b);
    r.append(c);
    r
}

/// The first index at or after `from` at which `t` holds `c`, if there is one.
pub open spec fn next_char(t: Seq<char>, c: char, from: int) -> Option<int>
    decreases t.len() - from,
{
    if from < 0 || from >= t.len() {
        None
    } else if t[from] == c {
        Some(from)
    } else {
        next_char(t, c, from + 1)
    }
}

/// What [`next_char`] finds is an index of `c`, and `c` does not occur
/// between `from` and that index.
pub proof fn lemma_next_char(t: Seq<char>, c: char, from: int)
    requires
        0 <= from,
    ensures
        match next_char(t, c, from) {
            Some(i) => from <= i < t.len() && t[i] == c && forall|j: int| from <= j < i ==> t[j] != c,
            None => forall|j: int| from <= j < t.len() ==> t[j] != c,
        },
    decreases t.len() - from,
{
    if from < t.len() && t[from] != c {
        lemma_next_char(t, c, from + 1);
    }
}

/// Finds the first `c` at or after `from`.
pub fn find_char(chars: &Vec<char>, c: char, from: usize) -> (r: Option<usize>)
    ensures
        index_view(r) == next_char(chars@, c, from as int),
{
    let mut i: usize = from;
    while i < chars.len()
        invariant
            from <= i,
            next_char(chars@, c, from as int) == next_char(chars@, c, i as int),
        decreases chars.len() - i,
    {
        if chars[i] == c {
            return Some(i);
        }
        i += 1;
    }
    None
}

} // verus!
