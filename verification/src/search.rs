//! The first index in a closed range that satisfies a predicate.

use vstd::prelude::*;

verus! {

/// The least `i` with `lo <= i <= hi` and `p(i)`, if there is one.
pub open spec fn first_in(lo: int, hi: int, p: spec_fn(int) -> bool) -> Option<int>
    decreases hi - lo + 1,
{
    if lo > hi {
        None
    } else if p(lo) {
        Some(lo)
    } else {
        first_in(lo + 1, hi, p)
    }
}

/// What `first_in` returns: the least satisfying index of the range, or
/// `None` exactly when no index of the range satisfies `p`.
pub proof fn lemma_first_in(lo: int, hi: int, p: spec_fn(int) -> bool)
    ensures
        match first_in(lo, hi, p) {
            Some(i) => lo <= i <= hi && p(i) && forall|j: int| lo <= j < i ==> !#[trigger] p(j),
            None => forall|j: int| lo <= j <= hi ==> !#[trigger] p(j),
        },
    decreases hi - lo + 1,
{
    if lo <= hi && !p(lo) {
        lemma_first_in(lo + 1, hi, p);
        match first_in(lo + 1, hi, p) {
            Some(i) => {
                assert forall|j: int| lo <= j < i implies !#[trigger] p(j) by {
                    if j != lo {
                    }
                }
            },
            None => {
                assert forall|j: int| lo <= j <= hi implies !#[trigger] p(j) by {
                    if j != lo {
                    }
                }
            },
        }
    }
}

} // verus!
