//! The predicate that decides where the adapter stops: what can be said of
//! its answers, and a holder that keeps a tally of its invocations.

use vstd::prelude::*;

verus! {

/// `predicate` may answer `true` on `item`.
pub open spec fn holds<T, P: FnMut(&T) -> bool>(predicate: P, item: T) -> bool {
    call_ensures(predicate, (&item,), true)
}

/// `predicate` never has a choice: no element lets it answer both `true` and
/// `false`. Its answer on `item` is then `holds(predicate, item)`.
pub open spec fn decisive<T, P: FnMut(&T) -> bool>(predicate: P) -> bool {
    forall|item: &T|
        !(#[trigger] call_ensures(predicate, (item,), true) && call_ensures(
            predicate,
            (item,),
            false,
        ))
}

/// `predicate` may be invoked on every element.
pub open spec fn total<T, P: FnMut(&T) -> bool>(predicate: P) -> bool {
    forall|item: &T| #[trigger] call_requires(predicate, (item,))
}

/// A callable with a ghost count of its invocations.
///
/// The callable is reachable only through [`Probe::ask`], and every `ask`
/// advances the count by one, so `calls()` is the number of times the callable
/// has run since [`Probe::new`].
pub struct Probe<P> {
    callee: P,
    calls: Ghost<nat>,
}

impl<P> Probe<P> {
    /// The wrapped callable.
    pub closed spec fn callee(&self) -> P {
        self.callee
    }

    /// How often the callable has been invoked.
    pub closed spec fn calls(&self) -> nat {
        self.calls@
    }

    /// Wraps `callee`, not yet invoked.
    pub fn new(callee: P) -> (probe: Self)
        ensures
            probe.callee() == callee,
            probe.calls() == 0,
    {
        Probe { callee, calls: Ghost(0) }
    }

    /// Invokes the callable on `item`, once, and returns its answer.
    pub fn ask<T>(&mut self, item: &T) -> (answer: bool) where P: FnMut(&T) -> bool
        requires
            call_requires(old(self).callee(), (item,)),
        ensures
            call_ensures(old(self).callee(), (item,), answer),
            final(self).callee() == old(self).callee(),
            final(self).calls() == old(self).calls() + 1,
    {
        broadcast use vstd::function::group_function_axioms;

        let answer = (self.callee)(item);
        self.calls = Ghost((self.calls@ + 1) as nat);
        answer
    }
}

} // verus!
