//! Splitting a token into its three dot-separated segments.

use vstd::prelude::*;
use vstd::slice::{slice_subrange, slice_to_vec};

verus! {

/// No byte of `s` is a dot.
pub open spec fn dot_free(s: Seq<u8>) -> bool {
    forall|i: int| 0 <= i < s.len() ==> s[i] != 46
}

/// `t` is exactly the three non-empty, dot-free segments `a`, `b`, `c`
/// joined by single dots.
pub open spec fn splits_into(t: Seq<u8>, a: Seq<u8>, b: Seq<u8>, c: Seq<u8>) -> bool {
    &&& t == a + seq![46u8] + b + seq![46u8] + c
    &&& a.len() > 0 && b.len() > 0 && c.len() > 0
    &&& dot_free(a) && dot_free(b) && dot_free(c)
}

/// Where the dots of a decomposed token lie: exactly at the two
/// separator positions.
pub proof fn lemma_splits_dots(t: Seq<u8>, a: Seq<u8>, b: Seq<u8>, c: Seq<u8>)
    requires
        splits_into(t, a, b, c),
    ensures
        t.len() == a.len() + b.len() + c.len() + 2,
        t[a.len() as int] == 46,
        t[a.len() + b.len() + 1 as int] == 46,
        forall|k: int|
            0 <= k < t.len() && t[k] == 46 ==> k == a.len() || k == a.len() + b.len() + 1,
        forall|k: int| 0 <= k < a.len() ==> t[k] == a[k],
        forall|k: int| 0 <= k < b.len() ==> t[a.len() + 1 + k] == b[k],
        forall|k: int| 0 <= k < c.len() ==> t[a.len() + b.len() + 2 + k] == c[k],
{
    assert forall|k: int| 0 <= k < a.len() implies t[k] == a[k] by {
        assert(t[k] == (a + seq![46u8] + b + seq![46u8])[k]);
    }
    assert forall|k: int| 0 <= k < b.len() implies t[a.len() + 1 + k] == b[k] by {
        assert(t[a.len() + 1 + k] == (a + seq![46u8] + b + seq![46u8])[a.len() + 1 + k]);
    }
    assert forall|k: int| 0 <= k < c.len() implies t[a.len() + b.len() + 2 + k] == c[k] by {
    }
    assert forall|k: int|
        0 <= k < t.len() && t[k] == 46 implies k == a.len() || k == a.len() + b.len() + 1 by {
        if k < a.len() {
            assert(t[k] == a[k]);
        } else if a.len() < k < a.len() + b.len() + 1 {
            assert(t[k] == b[k - a.len() - 1]);
        } else if k > a.len() + b.len() + 1 {
            assert(t[k] == c[k - a.len() - b.len() - 2]);
        }
    }
}

/// A token decomposes into three segments in at most one way.
pub proof fn lemma_split_unique(
    t: Seq<u8>,
    a1: Seq<u8>,
    b1: Seq<u8>,
    c1: Seq<u8>,
    a2: Seq<u8>,
    b2: Seq<u8>,
    c2: Seq<u8>,
)
    requires
        splits_into(t, a1, b1, c1),
        splits_into(t, a2, b2, c2),
    ensures
        a1 == a2,
        b1 == b2,
        c1 == c2,
{
    lemma_splits_dots(t, a1, b1, c1);
    lemma_splits_dots(t, a2, b2, c2);
    // the first dot of t is at a1.len() and at a2.len()
    if a1.len() < a2.len() {
        assert(t[a1.len() as int] == a2[a1.len() as int]);
        assert(false);
    }
    if a2.len() < a1.len() {
        assert(t[a2.len() as int] == a1[a2.len() as int]);
        assert(false);
    }
    // the second dot is at a.len() + b.len() + 1 on both sides
    if b1.len() < b2.len() {
        assert(t[a1.len() + b1.len() + 1 as int] == b2[b1.len() as int]);
        assert(false);
    }
    if b2.len() < b1.len() {
        assert(t[a2.len() + b2.len() + 1 as int] == b1[b2.len() as int]);
        assert(false);
    }
    assert(a1 =~= a2);
    assert(b1 =~= b2);
    assert(c1 =~= c2);
}

/// Splits a token into its three segments. Returns `None` exactly when
/// the token does not consist of three non-empty dot-free segments
/// joined by single dots.
pub fn split_segments(t: &[u8]) -> (r: Option<(Vec<u8>, Vec<u8>, Vec<u8>)>)
    ensures
        r matches Some(p) ==> splits_into(t@, p.0@, p.1@, p.2@),
        r is None ==> !(exists|a: Seq<u8>, b: Seq<u8>, c: Seq<u8>| splits_into(t@, a, b, c)),
{
    let n = t.len();
    let mut i: usize = 0;
    let mut p1: usize = 0;
    let mut p2: usize = 0;
    let mut dots: usize = 0;
    while i < n
        invariant
            n == t@.len(),
            i <= n,
            dots <= i,
            dots == 0 ==> (forall|j: int| 0 <= j < i ==> t@[j] != 46),
            dots >= 1 ==> p1 < i && t@[p1 as int] == 46 && (forall|j: int|
                0 <= j < p1 ==> t@[j] != 46),
            dots == 1 ==> (forall|j: int| p1 < j < i ==> t@[j] != 46),
            dots >= 2 ==> p1 < p2 < i && t@[p2 as int] == 46 && (forall|j: int|
                p1 < j < p2 ==> t@[j] != 46),
            dots == 2 ==> (forall|j: int| p2 < j < i ==> t@[j] != 46),
            dots >= 3 ==> exists|j: int| p2 < j < i && t@[j] == 46,
        decreases n - i,
    {
        if t[i] == 46 {
            if dots == 0 {
                p1 = i;
            } else if dots == 1 {
                p2 = i;
            }
            dots = dots + 1;
        }
        i = i + 1;
    }
    if dots == 2 && p1 >= 1 && p2 - p1 >= 2 && n - p2 >= 2 {
        let a = slice_to_vec(slice_subrange(t, 0, p1));
        let b = slice_to_vec(slice_subrange(t, p1 + 1, p2));
        let c = slice_to_vec(slice_subrange(t, p2 + 1, n));
        proof {
            assert(t@ =~= a@ + seq![46u8] + b@ + seq![46u8] + c@);
        }
        Some((a, b, c))
    } else {
        proof {
            if exists|a: Seq<u8>, b: Seq<u8>, c: Seq<u8>| splits_into(t@, a, b, c) {
                let (a, b, c) = choose|a: Seq<u8>, b: Seq<u8>, c: Seq<u8>| splits_into(t@, a, b, c);
                lemma_splits_dots(t@, a, b, c);
                if dots == 0 {
                    assert(t@[a.len() as int] == 46);
                } else if dots == 1 {
                    // the one dot found would have to be both separators
                    assert(p1 == a.len() || p1 == a.len() + b.len() + 1);
                    assert(t@[a.len() as int] == 46 && t@[a.len() + b.len() + 1 as int] == 46);
                } else if dots >= 3 {
                    let j = choose|j: int| p2 < j < i && t@[j] == 46;
                    assert(p1 == a.len() && p2 == a.len() + b.len() + 1) by {
                        assert(p1 == a.len() || p1 == a.len() + b.len() + 1);
                        assert(p2 == a.len() || p2 == a.len() + b.len() + 1);
                    }
                    assert(j == a.len() || j == a.len() + b.len() + 1);
                } else {
                    // dots == 2 but a segment was empty
                    assert(p1 == a.len() && p2 == a.len() + b.len() + 1) by {
                        assert(p1 == a.len() || p1 == a.len() + b.len() + 1);
                        assert(p2 == a.len() || p2 == a.len() + b.len() + 1);
                    }
                }
                assert(false);
            }
        }
        None
    }
}

} // verus!
