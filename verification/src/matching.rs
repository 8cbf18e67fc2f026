//! String matching under the four comparison strategies. Comparisons are
//! exact character comparisons: no case folding, no locale awareness.

use vstd::prelude::*;
use vstd::string::*;

use crate::config::Strategy;

verus! {

/// `s` begins with the pattern `p`.
pub open spec fn seq_starts_with(s: Seq<char>, p: Seq<char>) -> bool {
    p.len() <= s.len() && s.subrange(0, p.len() as int) == p
}

/// `s` ends with the pattern `p`.
pub open spec fn seq_ends_with(s: Seq<char>, p: Seq<char>) -> bool {
    p.len() <= s.len() && s.subrange(s.len() - p.len(), s.len() as int) == p
}

/// The pattern `p` occurs in `s` at position `i`.
pub open spec fn seq_matches_at(s: Seq<char>, p: Seq<char>, i: int) -> bool {
    0 <= i && i + p.len() <= s.len() && s.subrange(i, i + p.len()) == p
}

/// The pattern `p` occurs somewhere in `s`.
pub open spec fn seq_contains(s: Seq<char>, p: Seq<char>) -> bool {
    exists|i: int| seq_matches_at(s, p, i)
}

/// What it means for the subject `s` to match the pattern `p` under a
/// comparison strategy.
pub open spec fn strategy_matches(strategy: Strategy, s: Seq<char>, p: Seq<char>) -> bool {
    match strategy {
        Strategy::Equals => s == p,
        Strategy::StartsWith => seq_starts_with(s, p),
        Strategy::EndsWith => seq_ends_with(s, p),
        Strategy::Contains => seq_contains(s, p),
    }
}

/// Exact string equality.
pub fn str_eq(s: &str, p: &str) -> (r: bool)
    ensures
        r == (s@ == p@),
{
    let n = s.unicode_len();
    let m = p.unicode_len();
    if n != m {
        return false;
    }
    let mut i: usize = 0;
    while i < n
        invariant
            n == s@.len(),
            n == p@.len(),
            i <= n,
            forall|j: int| 0 <= j < i ==> s@[j] == p@[j],
        decreases n - i,
    {
        if s.get_char(i) != p.get_char(i) {
            return false;
        }
        i += 1;
    }
    proof {
        assert(s@ =~= p@);
    }
    true
}

/// Whether `s` begins with `p`.
pub fn str_starts_with(s: &str, p: &str) -> (r: bool)
    ensures
        r == seq_starts_with(s@, p@),
{
    let n = s.unicode_len();
    let m = p.unicode_len();
    if m > n {
        return false;
    }
    let mut i: usize = 0;
    while i < m
        invariant
            n == s@.len(),
            m == p@.len(),
            m <= n,
            i <= m,
            forall|j: int| 0 <= j < i ==> s@[j] == p@[j],
        decreases m - i,
    {
        if s.get_char(i) != p.get_char(i) {
            proof {
                assert(s@.subrange(0, p@.len() as int)[i as int] != p@[i as int]);
            }
            return false;
        }
        i += 1;
    }
    proof {
        assert(s@.subrange(0, p@.len() as int) =~= p@);
    }
    true
}

/// Whether `s` ends with `p`.
pub fn str_ends_with(s: &str, p: &str) -> (r: bool)
    ensures
        r == seq_ends_with(s@, p@),
{
    let n = s.unicode_len();
    let m = p.unicode_len();
    if m > n {
        return false;
    }
    let k = n - m;
    let mut i: usize = 0;
    while i < m
        invariant
            n == s@.len(),
            m == p@.len(),
            m <= n,
            k == n - m,
            i <= m,
            forall|j: int| 0 <= j < i ==> s@[k + j] == p@[j],
        decreases m - i,
    {
        if s.get_char(k + i) != p.get_char(i) {
            proof {
                assert(s@.subrange(s@.len() - p@.len(), s@.len() as int)[i as int] != p@[i as int]);
            }
            return false;
        }
        i += 1;
    }
    proof {
        assert(s@.subrange(s@.len() - p@.len(), s@.len() as int) =~= p@);
    }
    true
}

/// Whether `p` occurs in `s` at position `i`; `n` and `m` are the lengths of
/// `s` and `p`.
fn str_matches_at(s: &str, p: &str, i: usize, n: usize, m: usize) -> (r: bool)
    requires
        n == s@.len(),
        m == p@.len(),
        i + m <= n,
    ensures
        r == seq_matches_at(s@, p@, i as int),
{
    let mut j: usize = 0;
    while j < m
        invariant
            n == s@.len(),
            m == p@.len(),
            i + m <= n,
            j <= m,
            forall|q: int| 0 <= q < j ==> s@[i + q] == p@[q],
        decreases m - j,
    {
        if s.get_char(i + j) != p.get_char(j) {
            proof {
                assert(s@.subrange(i as int, i + p@.len())[j as int] != p@[j as int]);
            }
            return false;
        }
        j += 1;
    }
    proof {
        assert(s@.subrange(i as int, i + p@.len()) =~= p@);
    }
    true
}

/// Whether `p` occurs somewhere in `s`.
pub fn str_contains(s: &str, p: &str) -> (r: bool)
    ensures
        r == seq_contains(s@, p@),
{
    let n = s.unicode_len();
    let m = p.unicode_len();
    if m > n {
        proof {
            assert(forall|i: int| !seq_matches_at(s@, p@, i));
        }
        return false;
    }
    let mut i: usize = 0;
    loop
        invariant
            n == s@.len(),
            m == p@.len(),
            m <= n,
            i <= n - m,
            forall|j: int| 0 <= j < i ==> !seq_matches_at(s@, p@, j),
        decreases n - m - i,
    {
        if str_matches_at(s, p, i, n, m) {
            proof {
                assert(seq_contains(s@, p@));
            }
            return true;
        }
        if i == n - m {
            proof {
                assert(forall|j: int| !seq_matches_at(s@, p@, j));
            }
            return false;
        }
        i += 1;
    }
}

/// Matches the subject `s` against the pattern `p` under a strategy.
pub fn strategy_match(strategy: Strategy, s: &str, p: &str) -> (r: bool)
    ensures
        r == strategy_matches(strategy, s@, p@),
{
    match strategy {
        Strategy::Equals => str_eq(s, p),
        Strategy::StartsWith => str_starts_with(s, p),
        Strategy::EndsWith => str_ends_with(s, p),
        Strategy::Contains => str_contains(s, p),
    }
}

} // verus!
