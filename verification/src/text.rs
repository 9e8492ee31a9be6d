//! Character-level text utilities: conversion between `&str`/`String` and
//! `Vec<char>`, equality, slicing, and delimiter-based splitting.
//!
//! The wire format is delimiter-based text, so all of the codec's logic works
//! over sequences of characters.  Splitting is specified by `spec_split`,
//! which cuts the input at each leftmost occurrence of the delimiter.

use vstd::prelude::*;
use vstd::string::StrSliceExecFns;

verus! {

/// The delimiter `d` occurs in `s` at position `i`.
pub open spec fn match_at(s: Seq<char>, d: Seq<char>, i: int) -> bool {
    0 <= i && i + d.len() <= s.len() && s.subrange(i, i + d.len() as int) == d
}

/// Index of the leftmost occurrence of `d` in `s` at or after `from`.
pub open spec fn spec_find_from(s: Seq<char>, d: Seq<char>, from: int) -> Option<int>
    decreases s.len() - from,
{
    if from < 0 || d.len() == 0 || from + d.len() > s.len() {
        None
    } else if match_at(s, d, from) {
        Some(from)
    } else {
        spec_find_from(s, d, from + 1)
    }
}

pub proof fn lemma_find_from_bounds(s: Seq<char>, d: Seq<char>, from: int)
    requires
        spec_find_from(s, d, from) is Some,
    ensures
        from <= spec_find_from(s, d, from)->0,
        match_at(s, d, spec_find_from(s, d, from)->0),
    decreases s.len() - from,
{
    if !(from < 0 || d.len() == 0 || from + d.len() > s.len()) && !match_at(s, d, from) {
        lemma_find_from_bounds(s, d, from + 1);
    }
}

/// The fragments of `s` between consecutive leftmost occurrences of the
/// delimiter `d`.  An input without any occurrence yields one fragment,
/// the input itself; a doubled delimiter yields an empty fragment.
pub open spec fn spec_split(s: Seq<char>, d: Seq<char>) -> Seq<Seq<char>>
    decreases s.len(),
        via spec_split_decreases
{
    if d.len() == 0 {
        seq![]
    } else {
        match spec_find_from(s, d, 0) {
            None => seq![s],
            Some(i) => seq![s.subrange(0, i)] + spec_split(
                s.subrange(i + d.len() as int, s.len() as int),
                d,
            ),
        }
    }
}

#[via_fn]
proof fn spec_split_decreases(s: Seq<char>, d: Seq<char>) {
    if d.len() > 0 {
        if spec_find_from(s, d, 0) is Some {
            lemma_find_from_bounds(s, d, 0);
        }
    }
}

/// The fragments of `ss` that are not empty, in order.
pub open spec fn nonempty_of(ss: Seq<Seq<char>>) -> Seq<Seq<char>>
    decreases ss.len(),
{
    if ss.len() == 0 {
        seq![]
    } else {
        (if ss[0].len() != 0 {
            seq![ss[0]]
        } else {
            seq![]
        }) + nonempty_of(ss.drop_first())
    }
}

/// Relies on `String::from_iter` over a character iterator: the resulting
/// string holds exactly the given characters, in order.
#[verifier::external_body]
pub fn string_of(cs: &Vec<char>) -> (r: String)
    ensures
        r@ == cs@,
{
    cs.iter().collect()
}

/// The characters of `s`, as a vector.
pub fn chars_of(s: &str) -> (r: Vec<char>)
    ensures
        r@ == s@,
{
    let n = s.unicode_len();
    let mut r: Vec<char> = Vec::new();
    let mut i: usize = 0;
    while i < n
        invariant
            n == s@.len(),
            i <= n,
            r@ == s@.subrange(0, i as int),
        decreases n - i,
    {
        let c = s.get_char(i);
        r.push(c);
        proof {
            assert(s@.subrange(0, i + 1 as int) =~= s@.subrange(0, i as int).push(s@[i as int]));
        }
        i = i + 1;
    }
    proof {
        assert(r@ =~= s@);
    }
    r
}

/// A copy of `s[from..to]`.
pub fn subvec(s: &Vec<char>, from: usize, to: usize) -> (r: Vec<char>)
    requires
        from <= to <= s@.len(),
    ensures
        r@ == s@.subrange(from as int, to as int),
{
    let mut r: Vec<char> = Vec::new();
    let mut i: usize = from;
    while i < to
        invariant
            from <= i <= to <= s@.len(),
            r@ == s@.subrange(from as int, i as int),
        decreases to - i,
    {
        r.push(s[i]);
        proof {
            assert(s@.subrange(from as int, i + 1 as int) =~= s@.subrange(
                from as int,
                i as int,
            ).push(s@[i as int]));
        }
        i = i + 1;
    }
    r
}

/// Character-for-character equality.
pub fn chars_eq(a: &Vec<char>, b: &Vec<char>) -> (r: bool)
    ensures
        r == (a@ == b@),
{
    if a.len() != b.len() {
        return false;
    }
    let mut i: usize = 0;
    while i < a.len()
        invariant
            i <= a@.len(),
            a@.len() == b@.len(),
            forall|j: int| 0 <= j < i ==> a@[j] == b@[j],
        decreases a@.len() - i,
    {
        if a[i] != b[i] {
            return false;
        }
        i = i + 1;
    }
    proof {
        assert(a@ =~= b@);
    }
    true
}

/// `s` equals the text of the literal `lit`.
pub fn chars_eq_str(a: &Vec<char>, lit: &str) -> (r: bool)
    ensures
        r == (a@ == lit@),
{
    let b = chars_of(lit);
    chars_eq(a, &b)
}

/// The delimiter `d` occurs in `s` at position `i`.
fn match_here(s: &Vec<char>, d: &Vec<char>, i: usize) -> (r: bool)
    requires
        i + d@.len() <= s@.len(),
    ensures
        r == match_at(s@, d@, i as int),
{
    let slen: usize = s.len();
    let mut k: usize = 0;
    while k < d.len()
        invariant
            i + d@.len() <= s@.len(),
            s@.len() == slen,
            k <= d@.len(),
            forall|j: int| 0 <= j < k ==> s@[i + j] == d@[j],
        decreases d@.len() - k,
    {
        if s[i + k] != d[k] {
            return false;
        }
        k = k + 1;
    }
    proof {
        assert(s@.subrange(i as int, i + d@.len() as int) =~= d@);
    }
    true
}

/// The leftmost occurrence of `d` in `s` at or after `from`.
pub fn find_from(s: &Vec<char>, d: &Vec<char>, from: usize) -> (r: Option<usize>)
    requires
        d@.len() > 0,
        from <= s@.len(),
    ensures
        match r {
            Some(i) => spec_find_from(s@, d@, from as int) == Some(i as int),
            None => spec_find_from(s@, d@, from as int) is None,
        },
{
    let slen: usize = s.len();
    let dlen: usize = d.len();
    let mut i: usize = from;
    while dlen <= slen && i <= slen - dlen
        invariant
            d@.len() == dlen,
            s@.len() == slen,
            0 < dlen,
            from <= i,
            i <= slen,
            spec_find_from(s@, d@, from as int) == spec_find_from(s@, d@, i as int),
        decreases slen - i,
    {
        if match_here(s, d, i) {
            return Some(i);
        }
        i = i + 1;
    }
    None
}

/// Splits `s` on the delimiter `d` into the fragments of `spec_split`.
pub fn split_chars(s: &Vec<char>, d: &Vec<char>) -> (r: Vec<Vec<char>>)
    requires
        d@.len() > 0,
    ensures
        r@.len() == spec_split(s@, d@).len(),
        forall|i: int| 0 <= i < r@.len() ==> r@[i]@ == #[trigger] spec_split(s@, d@)[i],
{
    let ghost full: Seq<Seq<char>> = spec_split(s@, d@);
    let mut rest: Vec<char> = subvec(s, 0, s.len());
    let mut out: Vec<Vec<char>> = Vec::new();
    let mut done: bool = false;
    proof {
        assert(rest@ =~= s@);
    }
    while !done
        invariant
            d@.len() > 0,
            full == spec_split(s@, d@),
            !done ==> out@.len() + spec_split(rest@, d@).len() == full.len(),
            !done ==> forall|j: int|
                0 <= j < spec_split(rest@, d@).len() ==> #[trigger] spec_split(rest@, d@)[j]
                    == full[out@.len() + j],
            done ==> out@.len() == full.len(),
            forall|i: int| 0 <= i < out@.len() ==> out@[i]@ == full[i],
        decreases rest@.len() + (if done { 0int } else { 1int }),
    {
        match find_from(&rest, d, 0) {
            None => {
                proof {
                    assert(spec_split(rest@, d@) =~= seq![rest@]);
                    assert(spec_split(rest@, d@)[0] == full[out@.len() as int + 0]);
                }
                out.push(rest);
                rest = Vec::new();
                done = true;
            },
            Some(i) => {
                proof {
                    lemma_find_from_bounds(rest@, d@, 0);
                }
                let rl: usize = rest.len();
                let frag = subvec(&rest, 0, i);
                let new_rest = subvec(&rest, i + d.len(), rl);
                proof {
                    assert(spec_split(rest@, d@) == seq![rest@.subrange(0, i as int)]
                        + spec_split(new_rest@, d@));
                    let ghost k: int = out@.len() as int;
                    assert(spec_split(rest@, d@)[0] == full[k + 0]);
                    assert(frag@ == spec_split(rest@, d@)[0]);
                    assert forall|j: int| 0 <= j < spec_split(new_rest@, d@).len() implies #[trigger]
                        spec_split(new_rest@, d@)[j] == full[k + 1 + j] by {
                        assert(spec_split(rest@, d@)[j + 1] == spec_split(new_rest@, d@)[j]);
                        assert(spec_split(rest@, d@)[j + 1] == full[k + (j + 1)]);
                    }
                }
                out.push(frag);
                rest = new_rest;
            },
        }
    }
    out
}

/// Splits `s` on `d` and drops the empty fragments that doubled delimiters
/// produce: the empty string is not a valid record encoding, so it is
/// discarded before record parsing.
pub fn split_nonempty(s: &Vec<char>, d: &Vec<char>) -> (r: Vec<Vec<char>>)
    requires
        d@.len() > 0,
    ensures
        r@.len() == nonempty_of(spec_split(s@, d@)).len(),
        forall|i: int|
            0 <= i < r@.len() ==> r@[i]@ == #[trigger] nonempty_of(spec_split(s@, d@))[i],
{
    let parts = split_chars(s, d);
    let ghost ss: Seq<Seq<char>> = spec_split(s@, d@);
    let mut out: Vec<Vec<char>> = Vec::new();
    let mut i: usize = 0;
    proof {
        assert(ss.skip(0) =~= ss);
    }
    while i < parts.len()
        invariant
            parts@.len() == ss.len(),
            forall|j: int| 0 <= j < parts@.len() ==> parts@[j]@ == #[trigger] ss[j],
            i <= parts@.len(),
            nonempty_of(ss) == out@.map_values(|v: Vec<char>| v@) + nonempty_of(ss.skip(i as int)),
            forall|j: int| 0 <= j < out@.len() ==> out@[j]@ == #[trigger] nonempty_of(ss)[j],
        decreases parts@.len() - i,
    {
        let ghost pre: Seq<Seq<char>> = out@.map_values(|v: Vec<char>| v@);
        proof {
            assert(ss.skip(i as int).drop_first() =~= ss.skip(i + 1 as int));
            assert(ss.skip(i as int)[0] == ss[i as int]);
        }
        if parts[i].len() > 0 {
            let frag = subvec(&parts[i], 0, parts[i].len());
            proof {
                assert(frag@ =~= parts@[i as int]@);
            }
            out.push(frag);
            proof {
                assert(out@.map_values(|v: Vec<char>| v@) =~= pre + seq![parts@[i as int]@]);
                assert(nonempty_of(ss.skip(i as int)) == seq![ss[i as int]] + nonempty_of(
                    ss.skip(i + 1 as int),
                ));
            }
        } else {
            proof {
                assert(nonempty_of(ss.skip(i as int)) == nonempty_of(ss.skip(i + 1 as int)));
            }
        }
        i = i + 1;
    }
    proof {
        assert(ss.skip(parts@.len() as int) =~= Seq::<Seq<char>>::empty());
    }
    out
}

} // verus!
