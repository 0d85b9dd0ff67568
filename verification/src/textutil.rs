//! Verified text utilities: case-insensitive matching of fixed ASCII
//! patterns, first-occurrence search, and delimiter splitting.
//!
//! These carry the bot's command grammar, so their contracts are exact.

use vstd::prelude::*;

verus! {

/// `a` equals `b` up to ASCII case, where `b` is a pattern character:
/// for a lower-case letter `b` this also accepts its upper-case form,
/// for any other `b` it is plain equality.
pub open spec fn eq_ci(a: char, b: char) -> bool {
    a == b || ('a' <= b && b <= 'z' && a as int == b as int - 32)
}

/// The pattern `pat` occurs in `s` at position `i`, up to ASCII case.
pub open spec fn matches_at_ci(s: Seq<char>, i: int, pat: Seq<char>) -> bool {
    &&& 0 <= i
    &&& i + pat.len() <= s.len()
    &&& forall|j: int| 0 <= j < pat.len() ==> eq_ci(s[i + j], pat[j])
}

/// The first position at or after `i` where `pat` occurs in `s` up to
/// ASCII case, if any.
pub open spec fn spec_find_ci(s: Seq<char>, pat: Seq<char>, i: int) -> Option<int>
    decreases s.len() - i,
{
    if i < 0 || i + pat.len() > s.len() {
        None
    } else if matches_at_ci(s, i, pat) {
        Some(i)
    } else {
        spec_find_ci(s, pat, i + 1)
    }
}

/// `s` split on every occurrence of `pat`, leftmost first; the
/// delimiters themselves are dropped. Splitting the empty sequence
/// gives one empty piece.
pub open spec fn spec_split(s: Seq<char>, pat: Seq<char>) -> Seq<Seq<char>>
    decreases s.len(),
    via spec_split_decreases
{
    if pat.len() == 0 {
        seq![s]
    } else {
        match spec_find_ci(s, pat, 0) {
            Some(k) => seq![s.subrange(0, k)] + spec_split(
                s.subrange(k + pat.len(), s.len() as int),
                pat,
            ),
            None => seq![s],
        }
    }
}

#[via_fn]
proof fn spec_split_decreases(s: Seq<char>, pat: Seq<char>) {
    if pat.len() > 0 {
        lemma_find_ci_is_first(s, pat, 0);
    }
}

/// `s` holds `c` somewhere.
pub open spec fn contains_char(s: Seq<char>, c: char) -> bool {
    exists|i: int| 0 <= i < s.len() && s[i] == c
}

/// What `spec_find_ci` returns is a genuine first occurrence.
pub proof fn lemma_find_ci_is_first(s: Seq<char>, pat: Seq<char>, i: int)
    requires
        0 <= i,
    ensures
        match spec_find_ci(s, pat, i) {
            Some(p) => {
                &&& i <= p
                &&& matches_at_ci(s, p, pat)
                &&& forall|q: int| i <= q < p ==> !matches_at_ci(s, q, pat)
            },
            None => forall|q: int| i <= q ==> !matches_at_ci(s, q, pat),
        },
    decreases s.len() - i,
{
    if i + pat.len() > s.len() {
        assert forall|q: int| i <= q implies !matches_at_ci(s, q, pat) by {}
    } else if matches_at_ci(s, i, pat) {
    } else {
        lemma_find_ci_is_first(s, pat, i + 1);
    }
}

/// The copy of `s` as a vector of its characters.
pub fn str_chars(s: &str) -> (r: Vec<char>)
    ensures
        r@ == s@,
{
    let n = s.unicode_len();
    let mut r: Vec<char> = Vec::new();
    let mut i: usize = 0;
    while i < n
        invariant
            n == s@.len(),
            i <= n,
            r@ == s@.subrange(0, i as int),
        decreases n - i,
    {
        r.push(s.get_char(i));
        i = i + 1;
        proof {
            assert(r@ =~= s@.subrange(0, i as int));
        }
    }
    proof {
        assert(r@ =~= s@);
    }
    r
}

/// Case-insensitive comparison of one character against a pattern
/// character.
pub fn eq_ci_exec(a: char, b: char) -> (r: bool)
    ensures
        r == eq_ci(a, b),
{
    let au = a as u32;
    let bu = b as u32;
    au == bu || (97 <= bu && bu <= 122 && au + 32 == bu)
}

/// Whether `pat` occurs in `s` at position `i`, up to ASCII case.
pub fn matches_at_ci_exec(s: &Vec<char>, i: usize, pat: &str) -> (r: bool)
    ensures
        r == matches_at_ci(s@, i as int, pat@),
{
    let n = s.len();
    let m = pat.unicode_len();
    if m > n || i > n - m {
        return false;
    }
    let mut j: usize = 0;
    while j < m
        invariant
            n == s@.len(),
            m == pat@.len(),
            m <= n,
            i <= n - m,
            j <= m,
            forall|k: int| 0 <= k < j ==> eq_ci(s@[i + k], pat@[k]),
        decreases m - j,
    {
        if !eq_ci_exec(s[i + j], pat.get_char(j)) {
            return false;
        }
        j = j + 1;
    }
    true
}

/// The first position at or after `from` where `pat` occurs in `s` up
/// to ASCII case.
pub fn find_ci(s: &Vec<char>, from: usize, pat: &str) -> (r: Option<usize>)
    ensures
        match r {
            Some(p) => {
                &&& from <= p
                &&& p + pat@.len() <= s@.len()
                &&& Some(p as int) == spec_find_ci(s@, pat@, from as int)
            },
            None => spec_find_ci(s@, pat@, from as int) is None,
        },
{
    let n = s.len();
    let m = pat.unicode_len();
    if m > n || from > n - m {
        proof {
            lemma_find_ci_none_out_of_range(s@, pat@, from as int);
        }
        return None;
    }
    let mut i: usize = from;
    while i <= n - m
        invariant
            n == s@.len(),
            m == pat@.len(),
            m <= n,
            from <= i <= n - m + 1,
            spec_find_ci(s@, pat@, from as int) == spec_find_ci(s@, pat@, i as int),
        decreases n - i,
    {
        if matches_at_ci_exec(s, i, pat) {
            return Some(i);
        }
        i = i + 1;
    }
    None
}

/// Past the last position where the pattern could fit, it never occurs.
proof fn lemma_find_ci_none_out_of_range(s: Seq<char>, pat: Seq<char>, i: int)
    requires
        i + pat.len() > s.len() || i < 0,
    ensures
        spec_find_ci(s, pat, i) is None,
{
}

/// A match at `t` with no match before it pins the search down.
pub proof fn lemma_find_ci_exact(s: Seq<char>, pat: Seq<char>, from: int, t: int)
    requires
        0 <= from <= t,
        matches_at_ci(s, t, pat),
        forall|q: int| from <= q < t ==> !matches_at_ci(s, q, pat),
    ensures
        spec_find_ci(s, pat, from) == Some(t),
    decreases t - from,
{
    if from < t {
        lemma_find_ci_exact(s, pat, from + 1, t);
    }
}

/// No match anywhere at or after `from` means the search fails.
pub proof fn lemma_find_ci_absent(s: Seq<char>, pat: Seq<char>, from: int)
    requires
        0 <= from,
        forall|q: int| from <= q ==> !matches_at_ci(s, q, pat),
    ensures
        spec_find_ci(s, pat, from) is None,
{
    if spec_find_ci(s, pat, from) is Some {
        lemma_find_ci_is_first(s, pat, from);
    }
}

/// Whether `s` holds `c` somewhere.
pub fn contains_char_exec(s: &Vec<char>, c: char) -> (r: bool)
    ensures
        r == contains_char(s@, c),
{
    let n = s.len();
    let mut i: usize = 0;
    while i < n
        invariant
            n == s@.len(),
            i <= n,
            forall|k: int| 0 <= k < i ==> s@[k] != c,
        decreases n - i,
    {
        if s[i] == c {
            return true;
        }
        i = i + 1;
    }
    false
}

/// `s` split on every occurrence of `pat`, leftmost first, each piece
/// owned.
pub fn split_owned(s: &str, pat: &str) -> (r: Vec<String>)
    requires
        pat@.len() >= 1,
    ensures
        r.deep_view() == spec_split(s@, pat@),
{
    let n = s.unicode_len();
    let m = pat.unicode_len();
    let mut out: Vec<String> = Vec::new();
    let mut cur: usize = 0;
    let ghost mut done: Seq<Seq<char>> = Seq::empty();
    proof {
        assert(s@.subrange(0, n as int) =~= s@);
        assert(out.deep_view() =~= done);
        assert(done + spec_split(s@, pat@) =~= spec_split(s@, pat@));
    }
    loop
        invariant
            n == s@.len(),
            m == pat@.len(),
            m >= 1,
            cur <= n,
            out.deep_view() == done,
            spec_split(s@, pat@) == done + spec_split(s@.subrange(cur as int, n as int), pat@),
        decreases n - cur,
    {
        let rest = s.substring_char(cur, n);
        let rest_chars = str_chars(rest);
        match find_ci(&rest_chars, 0, pat) {
            Some(k) => {
                let piece = rest.substring_char(0, k).to_owned();
                out.push(piece);
                proof {
                    let tail = rest@.subrange(k + m, rest@.len() as int);
                    assert(tail =~= s@.subrange(cur + k + m, n as int));
                    done = done.push(piece@);
                    assert(out.deep_view() =~= done);
                    assert(seq![rest@.subrange(0, k as int)] + spec_split(tail, pat@)
                        == spec_split(rest@, pat@));
                    assert(done + spec_split(s@.subrange(cur + k + m, n as int), pat@)
                        =~= spec_split(s@, pat@));
                }
                cur = cur + k + m;
            },
            None => {
                let piece = rest.to_owned();
                out.push(piece);
                proof {
                    done = done.push(piece@);
                    assert(out.deep_view() =~= done);
                    assert(spec_split(rest@, pat@) == seq![rest@]);
                    assert(done =~= spec_split(s@, pat@));
                }
                return out;
            },
        }
    }
}

} // verus!
