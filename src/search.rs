//! Plain substring search over characters, and the two ways in which the
//! package documents are scraped with it.
use vstd::prelude::*;

use crate::text::copy_chars;

verus! {

/// The first index at or after `i` where `pat` occurs in `s`.
pub open spec fn find_from(s: Seq<char>, pat: Seq<char>, i: int) -> Option<int>
    decreases s.len() + 1 - i,
{
    if i < 0 || i + pat.len() > s.len() {
        None
    } else if s.subrange(i, i + pat.len()) == pat {
        Some(i)
    } else {
        find_from(s, pat, i + 1)
    }
}

pub open spec fn contains(s: Seq<char>, pat: Seq<char>) -> bool {
    find_from(s, pat, 0) is Some
}

/// Whether `pat` occurs in `s` at `i`.
fn matches_at(s: &Vec<char>, pat: &Vec<char>, i: usize) -> (r: bool)
    requires
        i + pat@.len() <= s@.len(),
    ensures
        r == (s@.subrange(i as int, i + pat@.len()) == pat@),
{
    let n = s.len();
    let mut j: usize = 0;
    while j < pat.len()
        invariant
            n == s@.len(),
            j <= pat@.len(),
            i + pat@.len() <= s@.len(),
            forall|k: int| 0 <= k < j ==> s@[i + k] == pat@[k],
        decreases pat@.len() - j,
    {
        if s[i + j] != pat[j] {
            assert(s@.subrange(i as int, i + pat@.len())[j as int] != pat@[j as int]);
            return false;
        }
        j = j + 1;
    }
    assert(s@.subrange(i as int, i + pat@.len()) =~= pat@);
    true
}

/// The first index at or after `from` where `pat` occurs in `s`.
pub fn find(s: &Vec<char>, pat: &Vec<char>, from: usize) -> (r: Option<usize>)
    ensures
        match r {
            Some(i) => find_from(s@, pat@, from as int) == Some(i as int) && from <= i && i
                + pat@.len() <= s@.len(),
            None => find_from(s@, pat@, from as int) is None,
        },
{
    if pat.len() > s.len() || from > s.len() - pat.len() {
        return None;
    }
    let last = s.len() - pat.len();
    let mut i: usize = from;
    loop
        invariant
            from <= i <= last,
            last + pat@.len() == s@.len(),
            find_from(s@, pat@, from as int) == find_from(s@, pat@, i as int),
        decreases last - i,
    {
        if matches_at(s, pat, i) {
            return Some(i);
        }
        if i >= last {
            assert(find_from(s@, pat@, i + 1) is None);
            return None;
        }
        i = i + 1;
    }
}

/// The text of `split(attr).nth(1)` cut at its first `"`: what follows the
/// first `attr` in `s`, up to the next `attr`, the next `"` or the end,
/// whichever comes first.
pub open spec fn attr_value(s: Seq<char>, attr: Seq<char>) -> Option<Seq<char>> {
    match find_from(s, attr, 0) {
        None => None,
        Some(i) => {
            let rest = s.subrange(i + attr.len(), s.len() as int);
            let piece = match find_from(rest, attr, 0) {
                Some(j) => rest.subrange(0, j),
                None => rest,
            };
            Some(
                match find_from(piece, seq!['"'], 0) {
                    Some(k) => piece.subrange(0, k),
                    None => piece,
                },
            )
        },
    }
}

/// The part of `s` before the first occurrence of `pat`, or all of it.
fn before(s: Vec<char>, pat: &Vec<char>) -> (r: Vec<char>)
    ensures
        r@ == match find_from(s@, pat@, 0) {
            Some(j) => s@.subrange(0, j),
            None => s@,
        },
{
    match find(&s, pat, 0) {
        Some(j) => copy_chars(s.as_slice(), 0, j),
        None => s,
    }
}

/// Computes `attr_value`.
pub fn find_attr_value(s: &Vec<char>, attr: &Vec<char>) -> (r: Option<Vec<char>>)
    ensures
        match r {
            Some(v) => attr_value(s@, attr@) == Some(v@),
            None => attr_value(s@, attr@) is None,
        },
{
    match find(s, attr, 0) {
        None => None,
        Some(i) => {
            let n = s.len();
            let rest = copy_chars(s.as_slice(), i + attr.len(), n);
            let piece = before(rest, attr);
            let quote = vec!['"'];
            assert(quote@ =~= seq!['"']);
            Some(before(piece, &quote))
        },
    }
}

/// The first part of `s`, split at each `sep` from `start` on, that holds
/// `needle`.
pub open spec fn segment_with(s: Seq<char>, sep: Seq<char>, needle: Seq<char>, start: int) -> Option<
    Seq<char>,
>
    decreases s.len() - start,
{
    let end = match find_from(s, sep, start) {
        Some(e) => e,
        None => s.len() as int,
    };
    if start < 0 || end < start || end > s.len() {
        None
    } else {
        let seg = s.subrange(start, end);
        if contains(seg, needle) {
            Some(seg)
        } else if end < s.len() && sep.len() > 0 && end + sep.len() <= s.len() {
            segment_with(s, sep, needle, end + sep.len())
        } else {
            None
        }
    }
}

proof fn lemma_find_bounds(s: Seq<char>, pat: Seq<char>, i: int)
    ensures
        find_from(s, pat, i) matches Some(e) ==> i <= e && e + pat.len() <= s.len(),
    decreases s.len() + 1 - i,
{
    if i >= 0 && i + pat.len() <= s.len() && s.subrange(i, i + pat.len()) != pat {
        lemma_find_bounds(s, pat, i + 1);
    }
}

/// Computes `segment_with` from 0.
pub fn find_segment(s: &Vec<char>, sep: &Vec<char>, needle: &Vec<char>) -> (r: Option<Vec<char>>)
    ensures
        match r {
            Some(v) => segment_with(s@, sep@, needle@, 0) == Some(v@),
            None => segment_with(s@, sep@, needle@, 0) is None,
        },
{
    let mut start: usize = 0;
    while start <= s.len()
        invariant
            segment_with(s@, sep@, needle@, 0) == segment_with(s@, sep@, needle@, start as int),
        decreases s@.len() + 1 - start,
    {
        let found = find(s, sep, start);
        proof {
            lemma_find_bounds(s@, sep@, start as int);
        }
        let end = match found {
            Some(e) => e,
            None => s.len(),
        };
        let seg = copy_chars(s.as_slice(), start, end);
        if find(&seg, needle, 0).is_some() {
            return Some(seg);
        }
        if end < s.len() && sep.len() > 0 {
            start = end + sep.len();
        } else {
            return None;
        }
    }
    None
}

} // verus!
