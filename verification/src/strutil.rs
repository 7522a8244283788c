//! Verified helpers over character sequences: search, prefix test, substring
//! containment, blank-trimming and line splitting.
//!
//! Strings are modelled as their `Seq<char>` views throughout.

use vstd::prelude::*;
use vstd::string::StrSliceExecFns;

verus! {

/// Relies on `String::push` of std: appends the given character to the end
/// of the string.
pub assume_specification[ String::push ](s: &mut String, c: char)
    ensures
        final(s)@ == old(s)@.push(c),
;

/// Index of the first occurrence of `c` in `s`, or `s.len()` if `c` does not
/// occur.
pub open spec fn spec_find_char(s: Seq<char>, c: char) -> int
    decreases s.len(),
{
    if s.len() == 0 {
        0
    } else if s[0] == c {
        0
    } else {
        1 + spec_find_char(s.skip(1), c)
    }
}

/// `spec_find_char` lies in `0 ..= s.len()`, points at an occurrence of `c`
/// whenever one exists, and nothing before it is an occurrence.
pub proof fn lemma_find_char(s: Seq<char>, c: char)
    ensures
        0 <= spec_find_char(s, c) <= s.len(),
        spec_find_char(s, c) < s.len() ==> s[spec_find_char(s, c)] == c,
        forall|j: int| 0 <= j < spec_find_char(s, c) ==> s[j] != c,
    decreases s.len(),
{
    if s.len() == 0 {
    } else if s[0] == c {
    } else {
        lemma_find_char(s.skip(1), c);
        assert forall|j: int| 0 <= j < spec_find_char(s, c) implies s[j] != c by {
            if j > 0 {
                assert(s.skip(1)[j - 1] == s[j]);
            }
        }
        if spec_find_char(s, c) < s.len() {
            assert(s.skip(1)[spec_find_char(s, c) - 1] == s[spec_find_char(s, c)]);
        }
    }
}

/// First index of `c` in `s`, or the character length of `s` when absent.
pub fn find_char(s: &str, c: char) -> (i: usize)
    ensures
        i as int == spec_find_char(s@, c),
{
    let n = s.unicode_len();
    let mut i: usize = 0;
    while i < n
        invariant
            n == s@.len(),
            0 <= i <= n,
            forall|j: int| 0 <= j < i ==> s@[j] != c,
        decreases n - i,
    {
        if s.get_char(i) == c {
            proof {
                lemma_find_char(s@, c);
            }
            return i;
        }
        i = i + 1;
    }
    proof {
        lemma_find_char(s@, c);
    }
    i
}

/// Whether `p` is a prefix of `s`.
pub open spec fn spec_has_prefix(s: Seq<char>, p: Seq<char>) -> bool {
    p.len() <= s.len() && s.take(p.len() as int) == p
}

/// Prefix test on character sequences.
pub fn has_prefix(s: &str, p: &str) -> (r: bool)
    ensures
        r == spec_has_prefix(s@, p@),
{
    let sn = s.unicode_len();
    let pn = p.unicode_len();
    if pn > sn {
        return false;
    }
    let mut i: usize = 0;
    while i < pn
        invariant
            sn == s@.len(),
            pn == p@.len(),
            pn <= sn,
            0 <= i <= pn,
            forall|j: int| 0 <= j < i ==> s@[j] == p@[j],
        decreases pn - i,
    {
        if s.get_char(i) != p.get_char(i) {
            assert(s@.take(pn as int)[i as int] != p@[i as int]);
            return false;
        }
        i = i + 1;
    }
    proof {
        assert(s@.take(pn as int) =~= p@);
    }
    true
}

/// Whether `n` occurs in `s` starting exactly at index `i`.
pub open spec fn spec_contains_at(s: Seq<char>, n: Seq<char>, i: int) -> bool {
    0 <= i && i + n.len() <= s.len() && s.subrange(i, i + n.len()) == n
}

/// Whether `n` occurs anywhere in `s` as a contiguous run.
pub open spec fn spec_contains(s: Seq<char>, n: Seq<char>) -> bool {
    exists|i: int| spec_contains_at(s, n, i)
}

fn matches_at(s: &str, needle: &str, i: usize) -> (r: bool)
    requires
        i + needle@.len() <= s@.len(),
        s@.len() <= usize::MAX,
    ensures
        r == spec_contains_at(s@, needle@, i as int),
{
    let nn = needle.unicode_len();
    let mut k: usize = 0;
    while k < nn
        invariant
            nn == needle@.len(),
            i + nn <= s@.len(),
            s@.len() <= usize::MAX,
            0 <= k <= nn,
            forall|l: int| 0 <= l < k ==> s@[i + l] == needle@[l],
        decreases nn - k,
    {
        if s.get_char(i + k) != needle.get_char(k) {
            assert(s@.subrange(i as int, i + nn)[k as int] != needle@[k as int]);
            return false;
        }
        k = k + 1;
    }
    proof {
        assert(s@.subrange(i as int, i + nn as int) =~= needle@);
    }
    true
}

/// Substring containment.
pub fn str_contains(s: &str, needle: &str) -> (r: bool)
    ensures
        r == spec_contains(s@, needle@),
{
    let sn = s.unicode_len();
    let nn = needle.unicode_len();
    if nn > sn {
        assert(forall|i: int| !spec_contains_at(s@, needle@, i));
        return false;
    }
    if nn == 0 {
        assert(spec_contains_at(s@, needle@, 0)) by {
            assert(s@.subrange(0, 0) =~= needle@);
        }
        return true;
    }
    let mut i: usize = 0;
    while i <= sn - nn
        invariant
            sn == s@.len(),
            nn == needle@.len(),
            1 <= nn <= sn,
            0 <= i <= sn - nn + 1,
            forall|j: int| 0 <= j < i ==> !spec_contains_at(s@, needle@, j),
        decreases sn - i,
    {
        if matches_at(s, needle, i) {
            return true;
        }
        i = i + 1;
    }
    assert(forall|j: int| !spec_contains_at(s@, needle@, j));
    false
}

/// Index of the first occurrence of `n` in `s`, or `-1` when `n` does not
/// occur.
pub open spec fn spec_find_sub(s: Seq<char>, n: Seq<char>) -> int
    decreases s.len(),
{
    if spec_contains_at(s, n, 0) {
        0
    } else if s.len() == 0 {
        -1
    } else {
        let r = spec_find_sub(s.skip(1), n);
        if r < 0 {
            -1
        } else {
            1 + r
        }
    }
}

/// Occurrences of `n` in the tail of `s` stand one position later in `s`
/// itself.
proof fn lemma_contains_at_shift(s: Seq<char>, n: Seq<char>, j: int)
    requires
        s.len() > 0,
        !spec_contains_at(s, n, 0),
    ensures
        spec_contains_at(s.skip(1), n, j) <==> spec_contains_at(s, n, j + 1),
{
    if 0 <= j && j + n.len() <= s.len() - 1 {
        assert(s.skip(1).subrange(j, j + n.len() as int) =~= s.subrange(
            j + 1,
            j + 1 + n.len() as int,
        ));
    }
}

/// `spec_find_sub` is `-1` exactly when `n` does not occur; otherwise it is
/// the position of the first occurrence.
pub proof fn lemma_find_sub(s: Seq<char>, n: Seq<char>)
    ensures
        spec_find_sub(s, n) >= -1,
        spec_find_sub(s, n) >= 0 <==> spec_contains(s, n),
        spec_find_sub(s, n) >= 0 ==> spec_contains_at(s, n, spec_find_sub(s, n)),
        forall|j: int| 0 <= j < spec_find_sub(s, n) ==> !spec_contains_at(s, n, j),
    decreases s.len(),
{
    if spec_contains_at(s, n, 0) {
    } else if s.len() == 0 {
        assert(forall|i: int| !spec_contains_at(s, n, i));
    } else {
        lemma_find_sub(s.skip(1), n);
        assert forall|j: int| spec_contains_at(s.skip(1), n, j) <==> spec_contains_at(
            s,
            n,
            j + 1,
        ) by {
            lemma_contains_at_shift(s, n, j);
        }
        let r = spec_find_sub(s.skip(1), n);
        if r >= 0 {
            assert(spec_contains_at(s.skip(1), n, r));
            assert(spec_contains_at(s, n, r + 1));
            assert forall|j: int| 0 <= j < r + 1 implies !spec_contains_at(s, n, j) by {
                if j > 0 {
                    assert(!spec_contains_at(s.skip(1), n, j - 1));
                }
            }
        } else {
            assert forall|j: int| 0 <= j implies !spec_contains_at(s, n, j) by {
                if j > 0 {
                    assert(!spec_contains_at(s.skip(1), n, j - 1));
                }
            }
            assert(!spec_contains(s, n));
        }
    }
}

/// Position of the first occurrence of `needle` in `s`, if any.
pub fn find_str(s: &str, needle: &str) -> (r: Option<usize>)
    ensures
        match r {
            Option::Some(i) => i as int == spec_find_sub(s@, needle@) && spec_contains_at(
                s@,
                needle@,
                i as int,
            ),
            Option::None => spec_find_sub(s@, needle@) == -1 && !spec_contains(s@, needle@),
        },
{
    let sn = s.unicode_len();
    let nn = needle.unicode_len();
    proof {
        lemma_find_sub(s@, needle@);
    }
    if nn > sn {
        assert(forall|i: int| !spec_contains_at(s@, needle@, i));
        return Option::None;
    }
    if nn == 0 {
        assert(spec_contains_at(s@, needle@, 0)) by {
            assert(s@.subrange(0, 0) =~= needle@);
        }
        return Option::Some(0);
    }
    let mut i: usize = 0;
    while i <= sn - nn
        invariant
            sn == s@.len(),
            nn == needle@.len(),
            1 <= nn <= sn,
            0 <= i <= sn - nn + 1,
            forall|j: int| 0 <= j < i ==> !spec_contains_at(s@, needle@, j),
        decreases sn - i,
    {
        if matches_at(s, needle, i) {
            proof {
                lemma_find_sub(s@, needle@);
            }
            return Option::Some(i);
        }
        i = i + 1;
    }
    assert(forall|j: int| !spec_contains_at(s@, needle@, j));
    Option::None
}

/// The characters that trimming removes: space, tab, carriage return and
/// newline.
pub open spec fn spec_is_blank(c: char) -> bool {
    c == ' ' || c == '\t' || c == '\r' || c == '\n'
}

fn is_blank(c: char) -> (r: bool)
    ensures
        r == spec_is_blank(c),
{
    c == ' ' || c == '\t' || c == '\r' || c == '\n'
}

/// `s` with its leading blanks removed.
pub open spec fn spec_trim_front(s: Seq<char>) -> Seq<char>
    decreases s.len(),
{
    if s.len() > 0 && spec_is_blank(s[0]) {
        spec_trim_front(s.skip(1))
    } else {
        s
    }
}

/// `s` with its trailing blanks removed.
pub open spec fn spec_trim_back(s: Seq<char>) -> Seq<char>
    decreases s.len(),
{
    if s.len() > 0 && spec_is_blank(s.last()) {
        spec_trim_back(s.drop_last())
    } else {
        s
    }
}

/// `s` with leading and trailing blanks removed.
pub open spec fn spec_trim(s: Seq<char>) -> Seq<char> {
    spec_trim_back(spec_trim_front(s))
}

/// Removes leading and trailing blanks.
pub fn trim_blanks(s: &str) -> (r: String)
    ensures
        r@ == spec_trim(s@),
{
    let n = s.unicode_len();
    proof {
        assert(s@.skip(0) =~= s@);
    }
    let mut a: usize = 0;
    while a < n && is_blank(s.get_char(a))
        invariant
            n == s@.len(),
            0 <= a <= n,
            spec_trim_front(s@.skip(a as int)) == spec_trim_front(s@),
        decreases n - a,
    {
        proof {
            assert(s@.skip(a as int)[0] == s@[a as int]);
            assert(s@.skip(a as int).skip(1) =~= s@.skip(a + 1));
        }
        a = a + 1;
    }
    proof {
        if a < n {
            assert(s@.skip(a as int)[0] == s@[a as int]);
        }
        assert(spec_trim_front(s@) == s@.skip(a as int));
    }
    let mut b: usize = n;
    while b > a && is_blank(s.get_char(b - 1))
        invariant
            n == s@.len(),
            0 <= a <= b <= n,
            spec_trim_front(s@) == s@.skip(a as int),
            spec_trim_back(s@.subrange(a as int, b as int)) == spec_trim_back(s@.skip(a as int)),
        decreases b,
    {
        proof {
            let part = s@.subrange(a as int, b as int);
            assert(part.last() == s@[b - 1]);
            assert(part.drop_last() =~= s@.subrange(a as int, b - 1));
        }
        b = b - 1;
    }
    proof {
        let part = s@.subrange(a as int, b as int);
        if b > a {
            assert(part.last() == s@[b - 1]);
        }
        assert(spec_trim_back(part) == part);
        assert(s@.skip(a as int) =~= s@.subrange(a as int, n as int));
    }
    let piece = s.substring_char(a, b);
    piece.to_owned()
}

/// Whether `v` reads `YES` regardless of letter case.
pub open spec fn spec_is_yes_chars(v: Seq<char>) -> bool {
    v.len() == 3 && (v[0] == 'y' || v[0] == 'Y') && (v[1] == 'e' || v[1] == 'E') && (v[2] == 's'
        || v[2] == 'S')
}

/// Case-insensitive test for `YES`.
pub fn is_yes(v: &str) -> (r: bool)
    ensures
        r == spec_is_yes_chars(v@),
{
    if v.unicode_len() != 3 {
        return false;
    }
    let c0 = v.get_char(0);
    let c1 = v.get_char(1);
    let c2 = v.get_char(2);
    (c0 == 'y' || c0 == 'Y') && (c1 == 'e' || c1 == 'E') && (c2 == 's' || c2 == 'S')
}

/// The lines of `s`, split on newline characters. A string without a newline
/// is one line; every newline ends a line, and the remainder after the last
/// newline is the final line.
pub open spec fn spec_lines(s: Seq<char>) -> Seq<Seq<char>>
    decreases s.len(),
    via spec_lines_decreases
{
    let e = spec_find_char(s, '\n');
    if e == s.len() {
        seq![s]
    } else {
        seq![s.take(e)] + spec_lines(s.skip(e + 1))
    }
}

#[via_fn]
proof fn spec_lines_decreases(s: Seq<char>) {
    lemma_find_char(s, '\n');
}

/// Splits `s` into its lines.
pub fn split_lines(s: &str) -> (r: Vec<String>)
    ensures
        r.deep_view() == spec_lines(s@),
    decreases s@.len(),
{
    let n = s.unicode_len();
    let e = find_char(s, '\n');
    proof {
        lemma_find_char(s@, '\n');
    }
    if e == n {
        let mut r: Vec<String> = Vec::new();
        r.push(s.to_owned());
        proof {
            assert(r.deep_view() =~= spec_lines(s@));
        }
        r
    } else {
        let first = s.substring_char(0, e);
        let rest = s.substring_char(e + 1, n);
        let mut r: Vec<String> = Vec::new();
        r.push(first.to_owned());
        let mut tail = split_lines(rest);
        r.append(&mut tail);
        proof {
            assert(s@.take(e as int) == s@.subrange(0, e as int));
            assert(r.deep_view() =~= spec_lines(s@));
        }
        r
    }
}

} // verus!
