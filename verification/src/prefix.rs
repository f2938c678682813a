//! Prefixes of a sequence that are cut off by a condition on the elements.
//!
//! These are the mathematical values in which the adapter's contracts are
//! written: what an inclusive cut yields, what an exclusive cut yields, and how
//! the two relate.

use vstd::prelude::*;

verus! {

/// Index of the first element of `s` for which `stop` holds, or the length of
/// `s` when it holds for none.
pub open spec fn first_hit<T>(s: Seq<T>, stop: spec_fn(T) -> bool) -> int
    decreases s.len(),
{
    if s.len() == 0 || stop(s[0]) {
        0
    } else {
        1 + first_hit(s.drop_first(), stop)
    }
}

/// Does `stop` hold for some element of `s`?
pub open spec fn hits<T>(s: Seq<T>, stop: spec_fn(T) -> bool) -> bool {
    exists|i: int| 0 <= i < s.len() && stop(#[trigger] s[i])
}

/// The elements of `s` up to and including the first for which `stop` holds;
/// all of `s` when it holds for none.
pub open spec fn inclusive_prefix<T>(s: Seq<T>, stop: spec_fn(T) -> bool) -> Seq<T> {
    let k = first_hit(s, stop);
    if k < s.len() {
        s.take(k + 1)
    } else {
        s
    }
}

/// The elements of `s` before the first for which `keep` fails; all of `s`
/// when it fails for none.
pub open spec fn exclusive_prefix<T>(s: Seq<T>, keep: spec_fn(T) -> bool) -> Seq<T> {
    s.take(first_hit(s, |x: T| !keep(x)))
}

/// `first_hit` is the least index at which `stop` holds: it lies within
/// `0..=s.len()`, `stop` fails everywhere before it, and holds at it unless it
/// is the length.
pub proof fn lemma_first_hit<T>(s: Seq<T>, stop: spec_fn(T) -> bool)
    ensures
        0 <= first_hit(s, stop) <= s.len(),
        forall|j: int| 0 <= j < first_hit(s, stop) ==> !stop(#[trigger] s[j]),
        first_hit(s, stop) < s.len() ==> stop(s[first_hit(s, stop)]),
        first_hit(s, stop) < s.len() <==> hits(s, stop),
    decreases s.len(),
{
    if s.len() == 0 || stop(s[0]) {
    } else {
        let tail = s.drop_first();
        lemma_first_hit(tail, stop);
        let k = first_hit(tail, stop);
        assert forall|j: int| 0 <= j < 1 + k implies !stop(#[trigger] s[j]) by {
            if j > 0 {
                assert(s[j] == tail[j - 1]);
            }
        }
        if k < tail.len() {
            assert(s[1 + k] == tail[k]);
        }
    }
    let k = first_hit(s, stop);
    if k < s.len() {
        assert(stop(s[k]));
    }
}

/// `out` is cut from the front of `s` right after the first element for which
/// `stop` holds: it is a prefix of `s`, `stop` fails for all of its elements
/// but the last, and it ends before `s` does only if `stop` holds for its last
/// element.
pub open spec fn is_inclusive_cut<T>(out: Seq<T>, s: Seq<T>, stop: spec_fn(T) -> bool) -> bool {
    &&& out.len() <= s.len()
    &&& out == s.take(out.len() as int)
    &&& forall|i: int| 0 <= i < out.len() - 1 ==> !stop(#[trigger] out[i])
    &&& out.len() < s.len() ==> out.len() > 0 && stop(out.last())
}

/// The inclusive prefix is the one and only inclusive cut of `s`.
pub proof fn lemma_inclusive_prefix_exact<T>(out: Seq<T>, s: Seq<T>, stop: spec_fn(T) -> bool)
    ensures
        is_inclusive_cut(out, s, stop) <==> out == inclusive_prefix(s, stop),
{
    lemma_first_hit(s, stop);
    let k = first_hit(s, stop);
    let cut = inclusive_prefix(s, stop);
    if out == cut {
        assert(cut == s.take(cut.len() as int));
        assert forall|i: int| 0 <= i < cut.len() - 1 implies !stop(#[trigger] cut[i]) by {
            assert(cut[i] == s[i]);
        }
    }
    if is_inclusive_cut(out, s, stop) {
        let n = out.len() as int;
        assert forall|j: int| 0 <= j < n - 1 implies !stop(#[trigger] s[j]) by {
            assert(out[j] == s[j]);
        }
        if n < s.len() {
            assert(out.last() == s[n - 1]);
            if k < n - 1 {
                assert(!stop(s[k]));
            }
            assert(k == n - 1);
        } else {
            if k < n - 1 {
                assert(!stop(s[k]));
            }
            assert(out =~= s);
        }
        assert(out =~= cut);
    }
}

/// `out` is cut from the front of `s` right before the first element for which
/// `keep` fails: it is a prefix of `s`, `keep` holds for all of its elements,
/// and it ends before `s` does only if `keep` fails for the element that
/// follows it.
pub open spec fn is_exclusive_cut<T>(out: Seq<T>, s: Seq<T>, keep: spec_fn(T) -> bool) -> bool {
    &&& out.len() <= s.len()
    &&& out == s.take(out.len() as int)
    &&& forall|i: int| 0 <= i < out.len() ==> keep(#[trigger] out[i])
    &&& out.len() < s.len() ==> !keep(s[out.len() as int])
}

/// The exclusive prefix is the one and only exclusive cut of `s`.
pub proof fn lemma_exclusive_prefix_exact<T>(out: Seq<T>, s: Seq<T>, keep: spec_fn(T) -> bool)
    ensures
        is_exclusive_cut(out, s, keep) <==> out == exclusive_prefix(s, keep),
{
    let stop = |x: T| !keep(x);
    lemma_first_hit(s, stop);
    let k = first_hit(s, stop);
    let cut = exclusive_prefix(s, keep);
    if out == cut {
        assert forall|i: int| 0 <= i < cut.len() implies keep(#[trigger] cut[i]) by {
            assert(cut[i] == s[i]);
        }
        assert(cut == s.take(cut.len() as int));
    }
    if is_exclusive_cut(out, s, keep) {
        let n = out.len() as int;
        if k < n {
            assert(out[k] == s[k]);
        } else if n < k {
            assert(!stop(s[n]));
        }
    }
}

/// `first_hit` depends on `stop` only through its values.
pub proof fn lemma_first_hit_pointwise<T>(
    s: Seq<T>,
    stop: spec_fn(T) -> bool,
    other: spec_fn(T) -> bool,
)
    requires
        forall|x: T| #[trigger] stop(x) == other(x),
    ensures
        first_hit(s, stop) == first_hit(s, other),
    decreases s.len(),
{
    if s.len() == 0 || stop(s[0]) {
    } else {
        lemma_first_hit_pointwise(s.drop_first(), stop, other);
    }
}

/// The inclusive prefix, one element at a time: it is empty exactly when `s`
/// is; otherwise it starts with the first element of `s`, and goes on with the
/// inclusive prefix of the rest unless `stop` holds for that first element.
pub proof fn lemma_inclusive_prefix_unfold<T>(s: Seq<T>, stop: spec_fn(T) -> bool)
    ensures
        s.len() == 0 ==> inclusive_prefix(s, stop) == Seq::<T>::empty(),
        s.len() > 0 ==> inclusive_prefix(s, stop).len() > 0,
        s.len() > 0 ==> inclusive_prefix(s, stop)[0] == s[0],
        s.len() > 0 && stop(s[0]) ==> inclusive_prefix(s, stop).drop_first() == Seq::<T>::empty(),
        s.len() > 0 && !stop(s[0]) ==> inclusive_prefix(s, stop).drop_first() == inclusive_prefix(
            s.drop_first(),
            stop,
        ),
{
    lemma_first_hit(s, stop);
    if s.len() == 0 {
        assert(inclusive_prefix(s, stop) =~= Seq::<T>::empty());
    } else if stop(s[0]) {
        assert(inclusive_prefix(s, stop).drop_first() =~= Seq::<T>::empty());
    } else {
        let tail = s.drop_first();
        lemma_first_hit(tail, stop);
        assert(inclusive_prefix(s, stop).drop_first() =~= inclusive_prefix(tail, stop));
    }
}

/// Cutting inclusively by `stop` and cutting exclusively by its negation
/// `keep` differ by exactly one element: whenever `stop` holds somewhere in
/// `s`, the inclusive prefix is the exclusive prefix with the next element of
/// `s` appended; when it holds nowhere, both are all of `s`.
pub proof fn lemma_inclusive_extends_exclusive<T>(
    s: Seq<T>,
    stop: spec_fn(T) -> bool,
    keep: spec_fn(T) -> bool,
)
    requires
        forall|x: T| #[trigger] keep(x) == !stop(x),
    ensures
        ({
            let shorter = exclusive_prefix(s, keep);
            let longer = inclusive_prefix(s, stop);
            if hits(s, stop) {
                &&& shorter.len() < s.len()
                &&& longer == shorter.push(s[shorter.len() as int])
            } else {
                &&& longer == s
                &&& shorter == s
            }
        }),
{
    lemma_first_hit_pointwise(s, stop, |x: T| !keep(x));
    lemma_first_hit(s, stop);
    let k = first_hit(s, stop);
    let shorter = exclusive_prefix(s, keep);
    let longer = inclusive_prefix(s, stop);
    assert(shorter == s.take(k));
    if hits(s, stop) {
        assert(longer =~= shorter.push(s[k]));
    } else {
        assert(shorter =~= s);
    }
}

} // verus!
