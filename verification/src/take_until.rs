//! The adapter, its constructor and its pull operation.

use crate::describe::{describe_outcome, describes};
use crate::hint::cap_hint;
use crate::prefix::{inclusive_prefix, lemma_inclusive_prefix_exact, lemma_inclusive_prefix_unfold};
use crate::probe::{decisive, holds, total, Probe};
use core::fmt::Write;
use vstd::prelude::*;
use vstd::std_specs::iter::IteratorSpec;

verus! {

/// What an adapter will still yield, given whether it has stopped, what its
/// source will still yield, and its predicate (taken to be decisive): nothing
/// once it has stopped, else the inclusive prefix of the source's rest.
pub open spec fn pending<T, P: FnMut(&T) -> bool>(
    done: bool,
    rest: Seq<T>,
    predicate: P,
) -> Seq<T> {
    if done {
        Seq::empty()
    } else {
        inclusive_prefix(rest, |item: T| holds(predicate, item))
    }
}

/// Is an adapter at its end, given whether it has stopped and what its source
/// will still yield?
pub open spec fn exhausted<T>(done: bool, rest: Seq<T>) -> bool {
    done || rest.len() == 0
}

/// Yields the elements of a source up to and including the first on which the
/// predicate answers `true`.
pub struct TakeUntil<I, P> {
    iter: I,
    flag: bool,
    predicate: Probe<P>,
}

impl<I, P> TakeUntil<I, P> {
    /// The wrapped source, in its current state.
    pub closed spec fn source(&self) -> I {
        self.iter
    }

    /// The predicate.
    pub closed spec fn predicate(&self) -> P {
        self.predicate.callee()
    }

    /// Has the predicate answered `true` on an element that was yielded?
    pub closed spec fn done(&self) -> bool {
        self.flag
    }

    /// How often the predicate has been invoked since the adapter was made.
    pub closed spec fn calls(&self) -> nat {
        self.predicate.calls()
    }
}

/// Adds `take_until` to every iterator.
pub trait TakeUntilExt<P> where Self: Sized {
    /// Wraps the iterator and the predicate. Neither is touched: the source
    /// is not pulled and the predicate is not invoked.
    fn take_until(self, predicate: P) -> (adapter: TakeUntil<Self, P>)
        ensures
            adapter.source() == self,
            adapter.predicate() == predicate,
            !adapter.done(),
            adapter.calls() == 0,
    ;
}

impl<I, P> TakeUntilExt<P> for I where I: Sized + Iterator, P: FnMut(&I::Item) -> bool {
    fn take_until(self, predicate: P) -> (adapter: TakeUntil<Self, P>) {
        TakeUntil { iter: self, flag: false, predicate: Probe::new(predicate) }
    }
}

/// Decides what an active adapter does with what its source handed over:
/// the value is passed on as it is, and the second component says whether the
/// adapter stops after it. The predicate is invoked once on an element, and
/// not at all on `None`.
pub fn screen<T, P: FnMut(&T) -> bool>(
    pulled: Option<T>,
    predicate: &mut Probe<P>,
) -> (out: (Option<T>, bool))
    requires
        pulled matches Some(item) ==> call_requires(old(predicate).callee(), (&item,)),
    ensures
        out.0 == pulled,
        final(predicate).callee() == old(predicate).callee(),
        pulled matches Some(item) ==> {
            &&& call_ensures(old(predicate).callee(), (&item,), out.1)
            &&& final(predicate).calls() == old(predicate).calls() + 1
        },
        pulled is None ==> !out.1 && *final(predicate) == *old(predicate),
{
    match pulled {
        None => (None, false),
        Some(item) => {
            let stop = predicate.ask(&item);
            (Some(item), stop)
        },
    }
}

impl<I: Iterator, P: FnMut(&I::Item) -> bool> TakeUntil<I, P> {
    /// Pulls the next element.
    ///
    /// Once stopped, the adapter answers `None` and touches nothing. Otherwise
    /// it pulls the source once and hands the outcome to `screen`: the
    /// source's `None` is passed on and leaves the adapter active; an element
    /// is passed on unchanged after the predicate has been invoked on it,
    /// once, and the adapter stops if and only if the answer was `true`.
    ///
    /// Of a source that obeys the iterator laws the contract says which
    /// element that is, and that an adapter which has answered `None` is at
    /// its end and stays there. With a decisive predicate on top, the adapter
    /// itself behaves as such an iterator over `pending`.
    pub fn next(&mut self) -> (ret: Option<I::Item>)
        requires
            total::<I::Item, P>(old(self).predicate()),
        ensures
            old(self).done() ==> ret is None && *final(self) == *old(self),
            final(self).predicate() == old(self).predicate(),
            final(self).calls() == old(self).calls() + if ret is Some { 1nat } else { 0nat },
            ret matches Some(item) ==> call_ensures(
                old(self).predicate(),
                (&item,),
                final(self).done(),
            ),
            ret is None ==> final(self).done() == old(self).done(),
            final(self).source().obeys_prophetic_iter_laws() == old(
                self,
            ).source().obeys_prophetic_iter_laws(),
            old(self).source().obeys_prophetic_iter_laws() ==> {
                &&& final(self).source().will_return_none() == old(self).source().will_return_none()
                &&& final(self).source().decrease() is Some == old(self).source().decrease() is Some
            },
            old(self).source().obeys_prophetic_iter_laws() && !old(self).done() ==> {
                let rest = old(self).source().remaining();
                if rest.len() > 0 {
                    &&& ret == Some(rest[0])
                    &&& final(self).source().remaining() == rest.drop_first()
                    &&& final(self).source().decrease() is Some ==> decreases_to!(
                        old(self).source().decrease()->0 => final(self).source().decrease()->0
                    )
                } else {
                    &&& ret is None
                    &&& final(self).source().remaining() == rest
                    &&& final(self).source().will_return_none()
                }
            },
            old(self).source().obeys_prophetic_iter_laws() ==> {
                &&& ret is None <==> exhausted(old(self).done(), old(self).source().remaining())
                &&& ret is None ==> exhausted(final(self).done(), final(self).source().remaining())
            },
            old(self).source().obeys_prophetic_iter_laws() && decisive::<I::Item, P>(
                old(self).predicate(),
            ) ==> {
                let before = pending(
                    old(self).done(),
                    old(self).source().remaining(),
                    old(self).predicate(),
                );
                let after = pending(
                    final(self).done(),
                    final(self).source().remaining(),
                    old(self).predicate(),
                );
                if before.len() > 0 {
                    ret == Some(before[0]) && after == before.drop_first()
                } else {
                    ret is None && after == before
                }
            },
    {
        proof {
            lemma_inclusive_prefix_unfold(
                self.iter.remaining(),
                |item: I::Item| holds(self.predicate.callee(), item),
            );
        }
        if self.flag {
            None
        } else {
            let (ret, stop) = screen(self.iter.next(), &mut self.predicate);
            if stop {
                self.flag = true;
            }
            proof {
                lemma_inclusive_prefix_unfold(
                    self.iter.remaining(),
                    |item: I::Item| holds(self.predicate.callee(), item),
                );
            }
            ret
        }
    }

    /// Bounds on how many elements are still to come, for callers that size a
    /// buffer: `(0, Some(0))` once stopped, else 0 and the upper bound that the
    /// source reports. What the source reports is its own affair; `cap_hint`
    /// states how the result follows from it.
    pub fn size_hint(&self) -> (hint: (usize, Option<usize>))
        ensures
            hint.0 == 0,
            self.done() ==> hint.1 == Some(0usize),
    {
        if self.flag {
            (0, Some(0))
        } else {
            cap_hint(false, source_hint(&self.iter))
        }
    }

    /// Pulls until the adapter answers `None`, and returns what it yielded, in
    /// order.
    ///
    /// The source must be one that is known to run out: it obeys the iterator
    /// laws and has a measure that each of its elements lowers.
    pub fn drain(&mut self) -> (out: Vec<I::Item>)
        requires
            total::<I::Item, P>(old(self).predicate()),
            old(self).source().obeys_prophetic_iter_laws(),
            old(self).source().decrease() is Some,
        ensures
            old(self).done() ==> out@.len() == 0 && *final(self) == *old(self),
            final(self).predicate() == old(self).predicate(),
            final(self).calls() == old(self).calls() + out@.len(),
            final(self).source().obeys_prophetic_iter_laws(),
            final(self).source().decrease() is Some,
            out@.len() <= old(self).source().remaining().len(),
            out@ == old(self).source().remaining().take(out@.len() as int),
            !old(self).done() ==> final(self).source().remaining() == old(
                self,
            ).source().remaining().skip(out@.len() as int),
            forall|i: int|
                0 <= i < out@.len() - 1 ==> call_ensures(
                    old(self).predicate(),
                    (&#[trigger] out@[i],),
                    false,
                ),
            out@.len() > 0 ==> call_ensures(
                old(self).predicate(),
                (&out@.last(),),
                final(self).done(),
            ),
            out@.len() == 0 ==> final(self).done() == old(self).done(),
            final(self).done() || out@.len() == old(self).source().remaining().len(),
            decisive::<I::Item, P>(old(self).predicate()) ==> out@ == pending(
                old(self).done(),
                old(self).source().remaining(),
                old(self).predicate(),
            ),
    {
        let mut out: Vec<I::Item> = Vec::new();
        let ghost rest = self.source().remaining();
        let ghost predicate = self.predicate();
        loop
            invariant
                total::<I::Item, P>(self.predicate()),
                self.source().obeys_prophetic_iter_laws(),
                self.source().decrease() is Some,
                rest == old(self).source().remaining(),
                predicate == old(self).predicate(),
                self.predicate() == predicate,
                self.calls() == old(self).calls() + out@.len(),
                old(self).done() ==> out@.len() == 0 && *self == *old(self),
                out@.len() <= rest.len(),
                out@ == rest.take(out@.len() as int),
                !old(self).done() ==> self.source().remaining() == rest.skip(out@.len() as int),
                forall|i: int|
                    0 <= i < out@.len() - 1 ==> call_ensures(
                        predicate,
                        (&#[trigger] out@[i],),
                        false,
                    ),
                out@.len() > 0 ==> call_ensures(predicate, (&out@.last(),), self.done()),
                out@.len() == 0 ==> self.done() == old(self).done(),
            ensures
                self.done() || out@.len() == rest.len(),
            decreases self.source().decrease()->0,
        {
            match self.next() {
                None => {
                    break ;
                },
                Some(item) => {
                    out.push(item);
                },
            }
        }
        proof {
            if decisive::<I::Item, P>(predicate) && !old(self).done() {
                lemma_inclusive_prefix_exact(out@, rest, |item: I::Item| holds(predicate, item));
            }
        }
        out
    }
}

impl<I: core::fmt::Debug, P> TakeUntil<I, P> {
    /// A diagnostic text: the source as its own `Debug` prints it, and the
    /// flag. The predicate is not shown. Whether the source can be printed,
    /// and as what, is up to its `Debug`; `describe_outcome` states what is
    /// returned for either outcome.
    pub fn to_debug_string(&self) -> (text: Option<String>)
        ensures
            text matches Some(t) ==> describes(t@, self.done()),
    {
        describe_outcome(debug_text(&self.iter), self.flag)
    }
}

/// Formats `source` into a fresh string with `{:?}`, that is through
/// `core::fmt::Debug::fmt`. `None` stands for the error that `fmt` may report.
/// What is printed is up to the implementation, so nothing is claimed of it.
#[verifier::external_body]
fn debug_text<I: core::fmt::Debug>(source: &I) -> (text: Option<String>) {
    let mut text = String::new();
    match write!(text, "{:?}", source) {
        Ok(()) => Some(text),
        Err(_) => None,
    }
}

/// Calls `Iterator::size_hint` on `source`. No claim is made about the bounds:
/// an implementation may report any pair.
#[verifier::external_body]
fn source_hint<I: Iterator>(source: &I) -> (hint: (usize, Option<usize>)) {
    source.size_hint()
}

} // verus!
