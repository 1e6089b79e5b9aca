//! Character-sequence utilities shared by the normalizer and the template
//! substitutor: conversion between strings and character vectors, whitespace
//! trimming, decimal rendering of group numbers, and literal substring
//! replacement.

use vstd::prelude::*;
use vstd::string::StrSliceExecFns;

verus! {

/// The whitespace characters that substituted field values are trimmed of.
pub open spec fn is_space(c: char) -> bool {
    c == ' ' || c == '\t' || c == '\n' || c == '\r' || c == '\u{b}' || c == '\u{c}'
}

fn is_space_char(c: char) -> (b: bool)
    ensures
        b == is_space(c),
{
    c == ' ' || c == '\t' || c == '\n' || c == '\r' || c == '\u{b}' || c == '\u{c}'
}

pub open spec fn trim_start_spec(s: Seq<char>) -> Seq<char>
    decreases s.len(),
{
    if s.len() > 0 && is_space(s[0]) {
        trim_start_spec(s.drop_first())
    } else {
        s
    }
}

pub open spec fn trim_end_spec(s: Seq<char>) -> Seq<char>
    decreases s.len(),
{
    if s.len() > 0 && is_space(s[s.len() - 1]) {
        trim_end_spec(s.drop_last())
    } else {
        s
    }
}

/// The text with leading and trailing whitespace removed.
pub open spec fn trim_spec(s: Seq<char>) -> Seq<char> {
    trim_end_spec(trim_start_spec(s))
}

proof fn lemma_trim_start_at(s: Seq<char>, k: int)
    requires
        0 <= k <= s.len(),
        forall|j: int| 0 <= j < k ==> is_space(s[j]),
        k < s.len() ==> !is_space(s[k]),
    ensures
        trim_start_spec(s) == s.skip(k),
    decreases k,
{
    if k == 0 {
        assert(s.skip(0) =~= s);
    } else {
        lemma_trim_start_at(s.drop_first(), k - 1);
        assert(s.drop_first().skip(k - 1) =~= s.skip(k));
    }
}

proof fn lemma_trim_end_at(s: Seq<char>, e: int)
    requires
        0 <= e <= s.len(),
        forall|j: int| e <= j < s.len() ==> is_space(s[j]),
        e > 0 ==> !is_space(s[e - 1]),
    ensures
        trim_end_spec(s) == s.take(e),
    decreases s.len() - e,
{
    if e == s.len() {
        assert(s.take(e) =~= s);
    } else {
        lemma_trim_end_at(s.drop_last(), e);
        assert(s.drop_last().take(e) =~= s.take(e));
    }
}

fn first_non_space(v: &Vec<char>) -> (i: usize)
    ensures
        i <= v@.len(),
        forall|j: int| 0 <= j < i ==> is_space(v@[j]),
        i < v@.len() ==> !is_space(v@[i as int]),
{
    let mut i: usize = 0;
    while i < v.len()
        invariant
            i <= v@.len(),
            forall|j: int| 0 <= j < i ==> is_space(v@[j]),
        decreases v@.len() - i,
    {
        if !is_space_char(v[i]) {
            return i;
        }
        i = i + 1;
    }
    i
}

fn trim_end_index(v: &Vec<char>, start: usize) -> (e: usize)
    requires
        start <= v@.len(),
    ensures
        start <= e <= v@.len(),
        forall|j: int| e <= j < v@.len() ==> is_space(v@[j]),
        e > start ==> !is_space(v@[e - 1]),
{
    let mut e: usize = v.len();
    while e > start
        invariant
            start <= e <= v@.len(),
            forall|j: int| e <= j < v@.len() ==> is_space(v@[j]),
        decreases e,
    {
        if !is_space_char(v[e - 1]) {
            return e;
        }
        e = e - 1;
    }
    e
}

/// Removes leading and trailing whitespace from a character vector.
pub fn trim_chars(v: &Vec<char>) -> (r: Vec<char>)
    ensures
        r@ == trim_spec(v@),
{
    let start = first_non_space(v);
    let end = trim_end_index(v, start);
    let mut r: Vec<char> = Vec::new();
    let mut i: usize = start;
    while i < end
        invariant
            start <= i <= end <= v@.len(),
            r@ == v@.subrange(start as int, i as int),
        decreases end - i,
    {
        let c = v[i];
        r.push(c);
        proof {
            assert(v@.subrange(start as int, i + 1) =~= v@.subrange(start as int, i as int)
                + seq![v@[i as int]]);
        }
        i = i + 1;
    }
    proof {
        lemma_trim_start_at(v@, start as int);
        let s = v@.skip(start as int);
        lemma_trim_end_at(s, end - start as int);
        assert(s.take(end - start as int) =~= v@.subrange(start as int, end as int));
        assert(r@ =~= v@.subrange(start as int, end as int));
    }
    r
}

/// Whether the character `c` occurs in `s`.
pub open spec fn contains_char(s: Seq<char>, c: char) -> bool {
    exists|i: int| 0 <= i < s.len() && s[i] == c
}

pub fn find_char(v: &Vec<char>, c: char) -> (b: bool)
    ensures
        b == contains_char(v@, c),
{
    let mut i: usize = 0;
    while i < v.len()
        invariant
            i <= v@.len(),
            forall|j: int| 0 <= j < i ==> v@[j] != c,
        decreases v@.len() - i,
    {
        if v[i] == c {
            return true;
        }
        i = i + 1;
    }
    false
}

pub open spec fn digit_char(d: nat) -> char {
    if d == 0 {
        '0'
    } else if d == 1 {
        '1'
    } else if d == 2 {
        '2'
    } else if d == 3 {
        '3'
    } else if d == 4 {
        '4'
    } else if d == 5 {
        '5'
    } else if d == 6 {
        '6'
    } else if d == 7 {
        '7'
    } else if d == 8 {
        '8'
    } else {
        '9'
    }
}

/// The decimal digits of `n`, most significant first.
pub open spec fn dec_digits(n: nat) -> Seq<char>
    decreases n,
{
    if n < 10 {
        seq![digit_char(n)]
    } else {
        dec_digits(n / 10) + seq![digit_char(n % 10)]
    }
}

fn digit_char_exec(d: usize) -> (c: char)
    requires
        d < 10,
    ensures
        c == digit_char(d as nat),
{
    if d == 0 {
        '0'
    } else if d == 1 {
        '1'
    } else if d == 2 {
        '2'
    } else if d == 3 {
        '3'
    } else if d == 4 {
        '4'
    } else if d == 5 {
        '5'
    } else if d == 6 {
        '6'
    } else if d == 7 {
        '7'
    } else if d == 8 {
        '8'
    } else {
        '9'
    }
}

/// Renders `n` in decimal, most significant digit first.
pub fn dec_chars(n: usize) -> (r: Vec<char>)
    ensures
        r@ == dec_digits(n as nat),
    decreases n,
{
    if n < 10 {
        let mut r: Vec<char> = Vec::new();
        r.push(digit_char_exec(n));
        proof {
            assert(r@ =~= seq![digit_char(n as nat)]);
        }
        r
    } else {
        let mut r = dec_chars(n / 10);
        r.push(digit_char_exec(n % 10));
        proof {
            assert(r@ =~= dec_digits(n as nat / 10) + seq![digit_char(n as nat % 10)]);
        }
        r
    }
}

/// `s` with every non-overlapping occurrence of `pat`, scanned left to
/// right, replaced by `rep`.
pub open spec fn replace_all_spec(s: Seq<char>, pat: Seq<char>, rep: Seq<char>) -> Seq<char>
    decreases s.len(),
{
    if pat.len() == 0 || s.len() < pat.len() {
        s
    } else if s.subrange(0, pat.len() as int) == pat {
        rep + replace_all_spec(s.skip(pat.len() as int), pat, rep)
    } else {
        seq![s[0]] + replace_all_spec(s.skip(1), pat, rep)
    }
}

fn matches_at(v: &Vec<char>, i: usize, pat: &Vec<char>) -> (b: bool)
    requires
        i <= v@.len(),
    ensures
        b <==> (i + pat@.len() <= v@.len() && v@.subrange(
            i as int,
            i + pat@.len(),
        ) == pat@),
{
    let n = v.len();
    if pat.len() > n - i {
        return false;
    }
    let mut j: usize = 0;
    while j < pat.len()
        invariant
            n == v@.len(),
            i + pat@.len() <= v@.len(),
            j <= pat@.len(),
            forall|k: int| 0 <= k < j ==> v@[i + k] == pat@[k],
        decreases pat@.len() - j,
    {
        proof {
            assert(i + j < n);
        }
        if v[i + j] != pat[j] {
            return false;
        }
        j = j + 1;
    }
    proof {
        assert(v@.subrange(i as int, i + pat@.len()) =~= pat@);
    }
    true
}

/// Appends all of `src` to `out`.
pub fn push_all(out: &mut Vec<char>, src: &Vec<char>)
    ensures
        final(out)@ == old(out)@ + src@,
{
    let mut k: usize = 0;
    while k < src.len()
        invariant
            k <= src@.len(),
            out@ == old(out)@ + src@.subrange(0, k as int),
        decreases src@.len() - k,
    {
        let c = src[k];
        out.push(c);
        proof {
            assert(old(out)@ + src@.subrange(0, k + 1) =~= (old(out)@ + src@.subrange(
                0,
                k as int,
            )) + seq![src@[k as int]]);
        }
        k = k + 1;
    }
    proof {
        assert(src@.subrange(0, src@.len() as int) =~= src@);
    }
}

/// Replaces every non-overlapping occurrence of `pat` in `v` by `rep`,
/// scanning left to right.
pub fn replace_all(v: &Vec<char>, pat: &Vec<char>, rep: &Vec<char>) -> (r: Vec<char>)
    requires
        pat@.len() >= 1,
    ensures
        r@ == replace_all_spec(v@, pat@, rep@),
{
    let mut out: Vec<char> = Vec::new();
    let mut i: usize = 0;
    proof {
        assert(v@.skip(0) =~= v@);
        assert(out@ + replace_all_spec(v@, pat@, rep@) =~= replace_all_spec(v@, pat@, rep@));
    }
    while i < v.len()
        invariant
            i <= v@.len(),
            pat@.len() >= 1,
            replace_all_spec(v@, pat@, rep@) == out@ + replace_all_spec(
                v@.skip(i as int),
                pat@,
                rep@,
            ),
        decreases v@.len() - i,
    {
        let ghost s = v@.skip(i as int);
        if matches_at(v, i, pat) {
            proof {
                assert(s.subrange(0, pat@.len() as int) =~= v@.subrange(i as int, i + pat@.len()));
                assert(s.skip(pat@.len() as int) =~= v@.skip(i + pat@.len()));
                assert(replace_all_spec(s, pat@, rep@) == rep@ + replace_all_spec(
                    v@.skip(i + pat@.len()),
                    pat@,
                    rep@,
                ));
            }
            push_all(&mut out, rep);
            i = i + pat.len();
        } else {
            proof {
                if s.len() >= pat@.len() {
                    assert(s.subrange(0, pat@.len() as int) =~= v@.subrange(
                        i as int,
                        i + pat@.len(),
                    ));
                }
                assert(s.skip(1) =~= v@.skip(i + 1));
                assert(replace_all_spec(s, pat@, rep@) == seq![v@[i as int]] + replace_all_spec(
                    v@.skip(i + 1),
                    pat@,
                    rep@,
                ));
            }
            let c = v[i];
            out.push(c);
            i = i + 1;
        }
    }
    proof {
        assert(v@.skip(v@.len() as int) =~= Seq::<char>::empty());
        assert(out@ + replace_all_spec(Seq::<char>::empty(), pat@, rep@) =~= out@);
    }
    out
}

/// Copies the characters of a string slice into a vector.
pub fn chars_of(s: &str) -> (r: Vec<char>)
    ensures
        r@ == s@,
{
    let n: usize = s.unicode_len();
    let mut r: Vec<char> = Vec::new();
    let mut i: usize = 0;
    while i < n
        invariant
            i <= n,
            n == s@.len(),
            r@ == s@.subrange(0, i as int),
        decreases n - i,
    {
        let c = s.get_char(i);
        r.push(c);
        proof {
            assert(s@.subrange(0, i + 1) =~= s@.subrange(0, i as int) + seq![s@[i as int]]);
        }
        i = i + 1;
    }
    proof {
        assert(s@.subrange(0, s@.len() as int) =~= s@);
    }
    r
}

/// Relies on `String`'s `FromIterator<char>` implementation: collecting an
/// iterator of characters yields the string made of exactly those
/// characters, in order.
#[verifier::external_body]
pub(crate) fn collect_string(v: &Vec<char>) -> (r: String)
    ensures
        r@ == v@,
{
    v.iter().collect()
}

} // verus!
