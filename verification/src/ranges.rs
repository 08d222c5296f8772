//! Facts about the set of positions below a bound.

use vstd::prelude::*;

verus! {

/// The positions `0, 1, .., n - 1`.
pub open spec fn below(n: nat) -> Set<usize> {
    Set::new(|k: usize| k < n)
}

/// There are exactly `n` positions below `n`, for any `n` a `usize` can reach.
pub proof fn lemma_below_len(n: nat)
    requires
        n <= usize::MAX + 1,
    ensures
        below(n).finite(),
        below(n).len() == n,
    decreases n,
{
    if n == 0 {
        assert(below(0) =~= Set::<usize>::empty());
    } else {
        lemma_below_len((n - 1) as nat);
        let m = (n - 1) as usize;
        assert(below(n) =~= below((n - 1) as nat).insert(m));
    }
}

/// A finite set of positions that holds everything below `n` and nothing
/// else is `below(n)`, and has `n` elements.
pub proof fn lemma_prefix_set(s: Set<usize>, n: nat)
    requires
        n <= usize::MAX + 1,
        forall|k: usize| k < n ==> s.contains(k),
        forall|k: usize| s.contains(k) ==> k < n,
    ensures
        s == below(n),
        s.finite(),
        s.len() == n,
{
    assert(s =~= below(n));
    lemma_below_len(n);
}

} // verus!

verus! {

/// The least element of `s` in `i ..= hi`, if any.
pub open spec fn first_in(s: Set<usize>, i: int, hi: int) -> Option<usize>
    decreases hi + 1 - i,
{
    if i > hi || i < 0 || i > usize::MAX {
        None
    } else if s.contains(i as usize) {
        Some(i as usize)
    } else {
        first_in(s, i + 1, hi)
    }
}

/// `first_in` is the least element of `s` in the range, and is `None`
/// exactly when the range holds no element of `s`.
pub proof fn lemma_first_in(s: Set<usize>, i: int, hi: int)
    requires
        0 <= i,
        hi <= usize::MAX,
    ensures
        match first_in(s, i, hi) {
            Some(j) => i <= j <= hi && s.contains(j) && forall|k: usize| i <= k < j ==> !s.contains(k),
            None => forall|k: usize| i <= k <= hi ==> !s.contains(k),
        },
    decreases hi + 1 - i,
{
    if i > hi {
    } else if s.contains(i as usize) {
    } else {
        lemma_first_in(s, i + 1, hi);
        match first_in(s, i + 1, hi) {
            Some(j) => {
                assert forall|k: usize| i <= k < j implies !s.contains(k) by {
                    if k == i {
                    } else {
                    }
                }
            },
            None => {
                assert forall|k: usize| i <= k <= hi implies !s.contains(k) by {
                    if k == i {
                    } else {
                    }
                }
            },
        }
    }
}

/// The elements of `s` in `i ..= hi`, in increasing order: each one found
/// by `first_in` from just after the previous one.
pub open spec fn walk(s: Set<usize>, i: int, hi: int) -> Seq<usize>
    decreases hi + 1 - i,
{
    if i > hi || i < 0 || i > usize::MAX {
        Seq::empty()
    } else {
        match first_in(s, i, hi) {
            Some(j) => if i <= j && j <= hi {
                seq![j].add(walk(s, j + 1, hi))
            } else {
                Seq::empty()
            },
            None => Seq::empty(),
        }
    }
}

/// The walk lists every element of `s` in the range once, in increasing
/// order, and nothing else.
pub proof fn lemma_walk(s: Set<usize>, i: int, hi: int)
    requires
        0 <= i,
        hi <= usize::MAX,
    ensures
        forall|a: int, b: int| 0 <= a < b < walk(s, i, hi).len() ==> walk(s, i, hi)[a] < walk(s, i, hi)[b],
        forall|k: usize| #[trigger] walk(s, i, hi).contains(k) ==> i <= k <= hi && s.contains(k),
        forall|k: usize| i <= k <= hi && #[trigger] s.contains(k) ==> walk(s, i, hi).contains(k),
    decreases hi + 1 - i,
{
    lemma_first_in(s, i, hi);
    if i > hi {
    } else {
        match first_in(s, i, hi) {
            Some(j) => {
                lemma_walk(s, j + 1, hi);
                let rest = walk(s, j + 1, hi);
                let w = walk(s, i, hi);
                assert(w == seq![j].add(rest));
                assert forall|a: int, b: int| 0 <= a < b < w.len() implies w[a] < w[b] by {
                    if a == 0 {
                        assert(w[b] == rest[b - 1]);
                        assert(rest.contains(rest[b - 1]));
                    } else {
                        assert(w[a] == rest[a - 1]);
                        assert(w[b] == rest[b - 1]);
                    }
                }
                assert forall|k: usize| #[trigger] w.contains(k) implies i <= k <= hi && s.contains(k) by {
                    let x = choose|x: int| 0 <= x < w.len() && w[x] == k;
                    if x > 0 {
                        assert(rest[x - 1] == k);
                        assert(rest.contains(k));
                    }
                }
                assert forall|k: usize| i <= k <= hi && #[trigger] s.contains(k) implies w.contains(k) by {
                    if i <= k <= hi && s.contains(k) {
                        if k == j {
                            assert(w[0] == j);
                        } else {
                            assert(rest.contains(k));
                            let x = choose|x: int| 0 <= x < rest.len() && rest[x] == k;
                            assert(w[x + 1] == k);
                        }
                    }
                }
            },
            None => {},
        }
    }
}

} // verus!
