//! A function held until it is run or given up: the state of a guard that runs the
//! function when it goes out of scope unless it was aborted first.
use vstd::prelude::*;

verus! {

/// Holds a function until it is taken to be run, or until `abort` gives it up.
pub struct Deferred<F: FnOnce()>(Option<F>);

impl<F: FnOnce()> Deferred<F> {
    /// The function still waiting to run, if any.
    pub closed spec fn pending(&self) -> Option<F> {
        self.0
    }

    /// Every function a guard holds can be called with no arguments.
    #[verifier::type_invariant]
    closed spec fn callable(&self) -> bool {
        self.0 matches Some(f) ==> f.requires(())
    }

    /// Takes the function out, to run it: it comes out at most once, since the guard
    /// is left empty.
    pub fn take_pending(&mut self) -> (r: Option<F>)
        ensures
            r == old(self).pending(),
            final(self).pending() is None,
            r matches Some(f) ==> f.requires(()),
    {
        let mut taken = Deferred(None);
        std::mem::swap(self, &mut taken);
        proof {
            use_type_invariant(&taken);
        }
        let Deferred(slot) = taken;
        slot
    }

    /// Drop without running the deferred function. It is declared never to unwind, and a
    /// call of the held function may unwind, so this body cannot call it: the function
    /// is discarded, never run.
    pub fn abort(self)
        no_unwind
    {
        let mut guard = self;
        guard.0 = None;
    }
}

/// Run the given function when the returned value is dropped (unless it's cancelled).
#[must_use]
pub fn defer<F: FnOnce()>(f: F) -> (d: Deferred<F>)
    requires
        f.requires(()),
    ensures
        d.pending() == Some(f),
{
    Deferred(Some(f))
}

} // verus!
