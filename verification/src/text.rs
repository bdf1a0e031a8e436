//! Plain-text helpers: substring search, string equality, prefix tests and
//! the interpretation of yes/no answers typed at a prompt.

use vstd::prelude::*;

verus! {

/// True when `pat` occurs in `s` starting at character index `i`.
pub open spec fn matches_at(s: Seq<char>, pat: Seq<char>, i: int) -> bool {
    &&& 0 <= i
    &&& i + pat.len() <= s.len()
    &&& s.subrange(i, i + pat.len()) == pat
}

/// Character index of the first occurrence of `pat` in `s` at or after `i`,
/// if there is one.
pub open spec fn first_match_from(s: Seq<char>, pat: Seq<char>, i: int) -> Option<int>
    decreases s.len() - i + 1,
{
    if i < 0 || i + pat.len() > s.len() {
        None
    } else if s.subrange(i, i + pat.len()) == pat {
        Some(i)
    } else {
        first_match_from(s, pat, i + 1)
    }
}

/// Character index of the first occurrence of `pat` in `s`, if there is one.
pub open spec fn find_first(s: Seq<char>, pat: Seq<char>) -> Option<int> {
    first_match_from(s, pat, 0)
}

/// Finds the first occurrence of `pat` in `s`, as a character index.
#[verifier::loop_isolation(false)]
pub fn find_substring(s: &str, pat: &str) -> (r: Option<usize>)
    ensures
        match r {
            Some(i) => matches_at(s@, pat@, i as int) && find_first(s@, pat@) == Some(i as int),
            None => find_first(s@, pat@) is None,
        },
{
    let n = s.unicode_len();
    let m = pat.unicode_len();
    if m > n {
        return None;
    }
    if m == 0 {
        proof {
            assert(s@.subrange(0, 0) =~= pat@);
        }
        return Some(0);
    }
    let mut i: usize = 0;
    while i <= n - m
        invariant
            i <= n - m + 1,
            first_match_from(s@, pat@, 0) == first_match_from(s@, pat@, i as int),
        decreases n - m + 1 - i,
    {
        let mut k: usize = 0;
        let mut mismatch = false;
        while k < m
            invariant
                k <= m,
                i + m <= n,
                !mismatch ==> forall|j: int| 0 <= j < k ==> s@[i + j] == pat@[j],
                mismatch ==> !matches_at(s@, pat@, i as int),
            decreases m - k,
        {
            if s.get_char(i + k) != pat.get_char(k) {
                proof {
                    assert(s@.subrange(i as int, i + pat@.len())[k as int] != pat@[k as int]);
                }
                mismatch = true;
                k = m;
            } else {
                k = k + 1;
            }
        }
        if !mismatch {
            proof {
                assert(s@.subrange(i as int, i + pat@.len()) =~= pat@);
            }
            return Some(i);
        }
        i = i + 1;
    }
    None
}

/// Decides whether two strings hold the same characters.
#[verifier::loop_isolation(false)]
pub fn str_eq(a: &str, b: &str) -> (r: bool)
    ensures
        r == (a@ == b@),
{
    let n = a.unicode_len();
    let m = b.unicode_len();
    if n != m {
        return false;
    }
    let mut k: usize = 0;
    while k < n
        invariant
            k <= n,
            forall|j: int| 0 <= j < k ==> a@[j] == b@[j],
        decreases n - k,
    {
        if a.get_char(k) != b.get_char(k) {
            return false;
        }
        k = k + 1;
    }
    proof {
        assert(a@ =~= b@);
    }
    true
}

/// Decides whether `p` is a prefix of `s`.
#[verifier::loop_isolation(false)]
pub fn has_prefix(s: &str, p: &str) -> (r: bool)
    ensures
        r == p@.is_prefix_of(s@),
{
    let n = s.unicode_len();
    let m = p.unicode_len();
    if m > n {
        return false;
    }
    let mut k: usize = 0;
    while k < m
        invariant
            k <= m,
            m <= n,
            forall|j: int| 0 <= j < k ==> s@[j] == p@[j],
        decreases m - k,
    {
        if s.get_char(k) != p.get_char(k) {
            proof {
                assert(s@.subrange(0, p@.len() as int)[k as int] != p@[k as int]);
            }
            return false;
        }
        k = k + 1;
    }
    proof {
        assert(p@ =~= s@.subrange(0, p@.len() as int));
    }
    true
}

/// A whitespace character that a prompt answer is trimmed of.
pub open spec fn is_space_char(c: char) -> bool {
    c == ' ' || c == '\t' || c == '\r' || c == '\n'
}

/// Decides whether a character is prompt whitespace.
pub fn is_space(c: char) -> (r: bool)
    ensures
        r == is_space_char(c),
{
    c == ' ' || c == '\t' || c == '\r' || c == '\n'
}

/// Index of the first non-whitespace character of `s` at or after `i`, or
/// the length of `s` when all of the rest is whitespace.
pub open spec fn skip_spaces_from(s: Seq<char>, i: int) -> int
    decreases s.len() - i + 1,
{
    if i < 0 || i >= s.len() {
        s.len() as int
    } else if is_space_char(s[i]) {
        skip_spaces_from(s, i + 1)
    } else {
        i
    }
}

/// Index just past the last non-whitespace character of `s` strictly below
/// `j`, or zero when there is none.
pub open spec fn drop_spaces_until(s: Seq<char>, j: int) -> int
    decreases j,
{
    if j <= 0 || j > s.len() {
        0
    } else if is_space_char(s[j - 1]) {
        drop_spaces_until(s, j - 1)
    } else {
        j
    }
}

/// The text with leading and trailing whitespace removed.
pub open spec fn trimmed(s: Seq<char>) -> Seq<char> {
    let a = skip_spaces_from(s, 0);
    let b = drop_spaces_until(s, s.len() as int);
    if a <= b {
        s.subrange(a, b)
    } else {
        Seq::empty()
    }
}

/// True of an answer whose trimmed text is "yes" in any letter case: the one
/// affirmative answer a prompt accepts.
pub open spec fn affirmative(s: Seq<char>) -> bool {
    let t = trimmed(s);
    &&& t.len() == 3
    &&& (t[0] == 'y' || t[0] == 'Y')
    &&& (t[1] == 'e' || t[1] == 'E')
    &&& (t[2] == 's' || t[2] == 'S')
}

/// Decides whether a typed answer is affirmative: exactly "yes" once letter
/// case and surrounding whitespace are ignored; anything else counts as no.
#[verifier::loop_isolation(false)]
pub fn is_affirmative(answer: &str) -> (r: bool)
    ensures
        r == affirmative(answer@),
{
    let n = answer.unicode_len();
    let mut a: usize = 0;
    while a < n && is_space(answer.get_char(a))
        invariant
            a <= n,
            skip_spaces_from(answer@, 0) == skip_spaces_from(answer@, a as int),
        decreases n - a,
    {
        a = a + 1;
    }
    let mut b: usize = n;
    while b > 0 && is_space(answer.get_char(b - 1))
        invariant
            b <= n,
            drop_spaces_until(answer@, n as int) == drop_spaces_until(answer@, b as int),
        decreases b,
    {
        b = b - 1;
    }
    if a <= b && b - a == 3 {
        proof {
            assert(trimmed(answer@) =~= answer@.subrange(a as int, b as int));
        }
        let c0 = answer.get_char(a);
        let c1 = answer.get_char(a + 1);
        let c2 = answer.get_char(a + 2);
        (c0 == 'y' || c0 == 'Y') && (c1 == 'e' || c1 == 'E') && (c2 == 's' || c2 == 'S')
    } else {
        false
    }
}

} // verus!
