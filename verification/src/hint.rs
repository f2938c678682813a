//! The size hint of the adapter, as a function of whether it has stopped and
//! of the hint of its source.

use vstd::prelude::*;

verus! {

/// `upper` promises at least as much as `other`: `None` stands for "no bound
/// known", and a known bound is never above the one it is compared to.
pub open spec fn upper_at_most(upper: Option<usize>, other: Option<usize>) -> bool {
    match (upper, other) {
        (_, None) => true,
        (Some(a), Some(b)) => a <= b,
        (None, Some(_)) => false,
    }
}

/// The adapter's hint: exactly nothing once it has stopped; else no promised
/// minimum, since the predicate may end the sequence at the very next element, and
/// the source's own upper bound, known or not.
pub open spec fn capped_hint(done: bool, inner: (usize, Option<usize>)) -> (usize, Option<usize>) {
    if done {
        (0usize, Some(0usize))
    } else {
        (0usize, inner.1)
    }
}

/// Computes the adapter's hint from the hint of its source.
pub fn cap_hint(done: bool, inner: (usize, Option<usize>)) -> (hint: (usize, Option<usize>))
    ensures
        hint == capped_hint(done, inner),
{
    if done {
        (0, Some(0))
    } else {
        let (_, upper) = inner;
        (0, upper)
    }
}

/// The hint is sound whatever the source reports: its lower bound is 0, its
/// upper bound never exceeds the source's, and once the adapter has stopped
/// both bounds are exactly 0.
pub proof fn lemma_capped_hint_sound(done: bool, inner: (usize, Option<usize>))
    ensures
        capped_hint(done, inner).0 == 0,
        upper_at_most(capped_hint(done, inner).1, inner.1),
        done ==> capped_hint(done, inner) == (0usize, Some(0usize)),
        !done ==> capped_hint(done, inner).1 == inner.1,
{
}

} // verus!
