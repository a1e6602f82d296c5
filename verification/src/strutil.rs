//! Small string helpers shared by the text-handling modules: conversion
//! between strings and character vectors, and searches over them.

use vstd::prelude::*;
use vstd::string::StrSliceExecFns;

verus! {

/// Relies on `String::from_iter` over `char`: the string holds exactly the
/// given characters in order.
#[verifier::external_body]
pub fn chars_to_string(v: &Vec<char>) -> (r: String)
    ensures
        r@ == v@,
{
    v.iter().collect()
}

/// The characters of a string as a vector.
pub fn str_to_chars(s: &str) -> (r: Vec<char>)
    ensures
        r@ == s@,
{
    let n = s.unicode_len();
    let mut v: Vec<char> = Vec::new();
    let mut i: usize = 0;
    while i < n
        invariant
            0 <= i <= n,
            n == s@.len(),
            v@ =~= s@.subrange(0, i as int),
        decreases n - i,
    {
        v.push(s.get_char(i));
        proof {
            assert(v@ =~= s@.subrange(0, i + 1));
        }
        i += 1;
    }
    proof {
        assert(s@.subrange(0, n as int) =~= s@);
    }
    v
}

/// Whether a character vector holds a character.
pub fn contains_char(v: &Vec<char>, c: char) -> (r: bool)
    ensures
        r == v@.contains(c),
{
    let mut i: usize = 0;
    while i < v.len()
        invariant
            0 <= i <= v@.len(),
            forall|j: int| 0 <= j < i ==> v@[j] != c,
        decreases v@.len() - i,
    {
        if v[i] == c {
            return true;
        }
        i += 1;
    }
    false
}

/// Whether a character counts as whitespace.
pub uninterp spec fn char_is_ws(c: char) -> bool;

/// Relies on `char::is_whitespace`: the Unicode white-space property,
/// a function of the character alone.
#[verifier::external_body]
pub fn is_ws(c: char) -> (r: bool)
    ensures
        r == char_is_ws(c),
        c == ' ' ==> r,
        c == '\n' ==> r,
        c == '\t' ==> r,
        c == '\r' ==> r,
{
    c.is_whitespace()
}

/// Whether a character counts as numeric.
pub uninterp spec fn char_is_numeric(c: char) -> bool;

/// Relies on `char::is_numeric`: the Unicode numeric property, a function
/// of the character alone.
#[verifier::external_body]
pub fn is_numeric(c: char) -> (r: bool)
    ensures
        r == char_is_numeric(c),
{
    c.is_numeric()
}

/// Whether a character counts as uppercase.
pub uninterp spec fn char_is_upper(c: char) -> bool;

/// Relies on `char::is_uppercase`: the Unicode uppercase property, a
/// function of the character alone.
#[verifier::external_body]
pub fn is_upper(c: char) -> (r: bool)
    ensures
        r == char_is_upper(c),
{
    c.is_uppercase()
}

/// A sequence with its leading whitespace removed.
pub open spec fn trim_front(s: Seq<char>) -> Seq<char>
    decreases s.len(),
{
    if s.len() > 0 && char_is_ws(s[0]) {
        trim_front(s.skip(1))
    } else {
        s
    }
}

/// A sequence with its trailing whitespace removed.
pub open spec fn trim_back(s: Seq<char>) -> Seq<char>
    decreases s.len(),
{
    if s.len() > 0 && char_is_ws(s.last()) {
        trim_back(s.drop_last())
    } else {
        s
    }
}

/// A sequence with whitespace removed from both ends.
pub open spec fn trimmed(s: Seq<char>) -> Seq<char> {
    trim_back(trim_front(s))
}

/// Trimming the front is cutting at the first non-whitespace position.
proof fn lemma_trim_front_skip(s: Seq<char>, i: int)
    requires
        0 <= i <= s.len(),
        forall|j: int| 0 <= j < i ==> char_is_ws(#[trigger] s[j]),
        i < s.len() ==> !char_is_ws(s[i]),
    ensures
        trim_front(s) == s.skip(i),
    decreases i,
{
    if i == 0 {
        assert(s.skip(0) =~= s);
    } else {
        lemma_trim_front_skip(s.skip(1), i - 1);
        assert(s.skip(1).skip(i - 1) =~= s.skip(i));
    }
}

/// Trimming the back is cutting at the last non-whitespace position.
proof fn lemma_trim_back_take(s: Seq<char>, k: int)
    requires
        0 <= k <= s.len(),
        forall|j: int| k <= j < s.len() ==> char_is_ws(#[trigger] s[j]),
        k > 0 ==> !char_is_ws(s[k - 1]),
    ensures
        trim_back(s) == s.take(k),
    decreases s.len(),
{
    if k == s.len() {
        assert(s.take(k) =~= s);
    } else {
        lemma_trim_back_take(s.drop_last(), k);
        assert(s.drop_last().take(k) =~= s.take(k));
    }
}

/// The first position holding a non-whitespace character, or the length.
fn first_non_ws(v: &Vec<char>) -> (i: usize)
    ensures
        i <= v@.len(),
        forall|j: int| 0 <= j < i ==> char_is_ws(#[trigger] v@[j]),
        i < v@.len() ==> !char_is_ws(v@[i as int]),
{
    let mut i: usize = 0;
    while i < v.len()
        invariant
            0 <= i <= v@.len(),
            forall|j: int| 0 <= j < i ==> char_is_ws(#[trigger] v@[j]),
        decreases v@.len() - i,
    {
        if !is_ws(v[i]) {
            return i;
        }
        i += 1;
    }
    i
}

/// One past the last non-whitespace position at or after `start`.
fn last_non_ws_after(v: &Vec<char>, start: usize) -> (end: usize)
    requires
        start < v@.len(),
        !char_is_ws(v@[start as int]),
    ensures
        start < end <= v@.len(),
        forall|j: int| end <= j < v@.len() ==> char_is_ws(#[trigger] v@[j]),
        !char_is_ws(v@[end - 1]),
{
    let mut k: usize = v.len();
    while k > start + 1
        invariant
            start + 1 <= k <= v@.len(),
            start < v@.len(),
            !char_is_ws(v@[start as int]),
            forall|j: int| k <= j < v@.len() ==> char_is_ws(#[trigger] v@[j]),
        decreases k,
    {
        if !is_ws(v[k - 1]) {
            return k;
        }
        k -= 1;
    }
    k
}

/// The characters of `v` with whitespace removed from both ends.
pub fn trim_chars(v: &Vec<char>) -> (r: Vec<char>)
    ensures
        r@ == trimmed(v@),
{
    let n = v.len();
    let start = first_non_ws(v);
    if start == n {
        proof {
            lemma_trim_front_skip(v@, n as int);
            assert(v@.skip(n as int) =~= Seq::<char>::empty());
            assert(trim_back(Seq::<char>::empty()) =~= Seq::<char>::empty());
        }
        return Vec::new();
    }
    proof {
        lemma_trim_front_skip(v@, start as int);
    }
    let end = last_non_ws_after(v, start);
    proof {
        let front = v@.skip(start as int);
        assert(!char_is_ws(front[(end - start - 1) as int]));
        assert forall|j: int|
            end - start <= j < front.len() implies char_is_ws(#[trigger] front[j]) by {
            assert(front[j] == v@[j + start]);
        }
        lemma_trim_back_take(front, end - start as int);
    }
    let r = subvec(v, start, end);
    proof {
        assert(v@.skip(start as int).take(end - start as int) =~= v@.subrange(
            start as int,
            end as int,
        ));
    }
    r
}

/// A string with whitespace removed from both ends.
pub fn trim_str(s: &str) -> (r: String)
    ensures
        r@ == trimmed(s@),
{
    let v = str_to_chars(s);
    let t = trim_chars(&v);
    chars_to_string(&t)
}

/// The UTF-8 encoding width of one character, by its code point.
pub open spec fn char_utf8_len(c: char) -> nat {
    if (c as u32) < 0x80 {
        1
    } else if (c as u32) < 0x800 {
        2
    } else if (c as u32) < 0x10000 {
        3
    } else {
        4
    }
}

/// The UTF-8 byte length of a character sequence.
pub open spec fn utf8_len(s: Seq<char>) -> nat
    decreases s.len(),
{
    if s.len() == 0 {
        0
    } else {
        utf8_len(s.drop_last()) + char_utf8_len(s.last())
    }
}

/// One line, its single trailing carriage return removed.
pub open spec fn strip_cr(l: Seq<char>) -> Seq<char> {
    if l.len() > 0 && l.last() == '\r' {
        l.drop_last()
    } else {
        l
    }
}

/// The lines of a text from position `i`, the current line starting at
/// `start`: split at every newline, each line's trailing carriage return
/// removed, and a final empty line dropped.
pub open spec fn lines_from(s: Seq<char>, i: int, start: int) -> Seq<Seq<char>>
    decreases s.len() - i,
{
    if i < start || start < 0 || i > s.len() {
        Seq::empty()
    } else if i >= s.len() {
        if start == s.len() {
            Seq::empty()
        } else {
            seq![strip_cr(s.subrange(start, s.len() as int))]
        }
    } else if s[i] == '\n' {
        seq![strip_cr(s.subrange(start, i))] + lines_from(s, i + 1, i + 1)
    } else {
        lines_from(s, i + 1, start)
    }
}

/// The lines of a text, as `str::lines` gives them.
pub open spec fn spec_lines(s: Seq<char>) -> Seq<Seq<char>> {
    lines_from(s, 0, 0)
}

/// The lines of a character vector.
pub fn split_lines(v: &Vec<char>) -> (r: Vec<Vec<char>>)
    ensures
        r@.map_values(|l: Vec<char>| l@) == spec_lines(v@),
{
    let n = v.len();
    let mut r: Vec<Vec<char>> = Vec::new();
    let mut i: usize = 0;
    let mut start: usize = 0;
    while i < n
        invariant
            0 <= start <= i <= n,
            n == v@.len(),
            spec_lines(v@) =~= r@.map_values(|l: Vec<char>| l@) + lines_from(
                v@,
                i as int,
                start as int,
            ),
        decreases n - i,
    {
        if v[i] == '\n' {
            let ghost prev = r@.map_values(|l: Vec<char>| l@);
            let mut line = subvec(v, start, i);
            if line.len() > 0 && line[line.len() - 1] == '\r' {
                let _ = line.pop();
                proof {
                    assert(line@ =~= strip_cr(v@.subrange(start as int, i as int)));
                }
            }
            r.push(line);
            proof {
                assert(r@.map_values(|l: Vec<char>| l@) =~= prev + seq![
                    strip_cr(v@.subrange(start as int, i as int)),
                ]);
            }
            start = i + 1;
        }
        i += 1;
    }
    if start < n {
        let ghost prev = r@.map_values(|l: Vec<char>| l@);
        let mut line = subvec(v, start, n);
        if line.len() > 0 && line[line.len() - 1] == '\r' {
            let _ = line.pop();
            proof {
                assert(line@ =~= strip_cr(v@.subrange(start as int, n as int)));
            }
        }
        r.push(line);
        proof {
            assert(r@.map_values(|l: Vec<char>| l@) =~= prev + seq![
                strip_cr(v@.subrange(start as int, n as int)),
            ]);
        }
    }
    r
}

/// The characters of `v` between `a` and `b`.
pub fn subvec(v: &Vec<char>, a: usize, b: usize) -> (r: Vec<char>)
    requires
        a <= b <= v@.len(),
    ensures
        r@ == v@.subrange(a as int, b as int),
{
    let mut r: Vec<char> = Vec::new();
    let mut k: usize = a;
    while k < b
        invariant
            a <= k <= b <= v@.len(),
            r@ =~= v@.subrange(a as int, k as int),
        decreases b - k,
    {
        r.push(v[k]);
        proof {
            assert(r@ =~= v@.subrange(a as int, k + 1));
        }
        k += 1;
    }
    r
}

/// The position of a character in a vector, where it occurs.
pub fn find_char(v: &Vec<char>, c: char) -> (r: Option<usize>)
    ensures
        r is Some <==> v@.contains(c),
        r matches Some(i) ==> i < v@.len() && v@[i as int] == c,
{
    let mut i: usize = 0;
    while i < v.len()
        invariant
            0 <= i <= v@.len(),
            forall|j: int| 0 <= j < i ==> v@[j] != c,
        decreases v@.len() - i,
    {
        if v[i] == c {
            return Some(i);
        }
        i += 1;
    }
    None
}

} // verus!
