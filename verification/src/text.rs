//! Verified text primitives: character-wise string equality and substring
//! search.

use vstd::prelude::*;

verus! {

/// `t` occurs as a contiguous run of characters inside `s`.
pub open spec fn contains_seq(s: Seq<char>, t: Seq<char>) -> bool {
    exists|i: int| 0 <= i && i + t.len() <= s.len() && #[trigger] s.subrange(i, i + t.len()) == t
}

/// Character-wise equality of two string slices.
pub fn str_eq(a: &str, b: &str) -> (r: bool)
    ensures
        r == (a@ == b@),
{
    let n = a.unicode_len();
    let m = b.unicode_len();
    if n != m {
        assert(a@ != b@) by {
            assert(a@.len() != b@.len());
        }
        return false;
    }
    let mut i: usize = 0;
    while i < n
        invariant
            n == a@.len(),
            n == b@.len(),
            i <= n,
            forall|j: int| 0 <= j < i ==> a@[j] == b@[j],
        decreases n - i,
    {
        let ca = a.get_char(i);
        let cb = b.get_char(i);
        if ca != cb {
            assert(a@ != b@) by {
                assert(a@[i as int] != b@[i as int]);
            }
            return false;
        }
        i = i + 1;
    }
    proof {
        assert(a@ =~= b@);
    }
    true
}

/// Whether the characters of `t` stand at position `i` of `s`.
fn matches_at(s: &str, t: &str, i: usize, n: usize, m: usize) -> (r: bool)
    requires
        n == s@.len(),
        m == t@.len(),
        i + m <= n,
    ensures
        r == (s@.subrange(i as int, i + t@.len()) == t@),
{
    let mut j: usize = 0;
    while j < m
        invariant
            n == s@.len(),
            m == t@.len(),
            i + m <= n,
            j <= m,
            forall|u: int| 0 <= u < j ==> s@[i + u] == t@[u],
        decreases m - j,
    {
        let cs = s.get_char(i + j);
        let ct = t.get_char(j);
        if cs != ct {
            assert(s@.subrange(i as int, i + t@.len()) != t@) by {
                assert(s@.subrange(i as int, i + t@.len())[j as int] == s@[i + j]);
            }
            return false;
        }
        j = j + 1;
    }
    proof {
        assert(s@.subrange(i as int, i + t@.len()) =~= t@);
    }
    true
}

/// Substring search: whether `t` occurs anywhere inside `s`.
pub fn str_contains(s: &str, t: &str) -> (r: bool)
    ensures
        r == contains_seq(s@, t@),
{
    let n = s.unicode_len();
    let m = t.unicode_len();
    if m > n {
        return false;
    }
    if m == 0 {
        proof {
            assert(s@.subrange(0, 0 + t@.len() as int) =~= t@);
            assert(contains_seq(s@, t@));
        }
        return true;
    }
    let mut i: usize = 0;
    while i <= n - m
        invariant
            n == s@.len(),
            m == t@.len(),
            1 <= m <= n,
            i <= n - m + 1,
            forall|u: int|
                0 <= u < i ==> #[trigger] s@.subrange(u, u + t@.len()) != t@,
        decreases n - i,
    {
        if matches_at(s, t, i, n, m) {
            return true;
        }
        i = i + 1;
    }
    false
}

} // verus!
