use crate::cancellable::Cancellable;
use vstd::prelude::*;

verus! {

/// A cancellable built from a closure.  The closure runs when the handle is
/// cancelled or dropped, and it runs at most once.
pub struct AnonymousCancellable<F: FnOnce()> {
    action: Option<F>,  // None once the action has run
}

impl<F: FnOnce()> AnonymousCancellable<F> {
    /// The action still waiting to run, if any.
    pub closed spec fn pending(self) -> Option<F> {
        self.action
    }

    /// Wraps `action`; it will be run by `cancel` or by the drop handler.
    pub fn new(action: F) -> (r: AnonymousCancellable<F>)
        requires
            call_requires(action, ()),
        ensures
            r.wf(),
            r.pending() == Some(action),
    {
        AnonymousCancellable { action: Some(action) }
    }

    /// The shared one-shot path behind `cancel` and the drop handler.
    fn trigger(&mut self) -> (ran: bool)
        requires
            old(self).wf(),
        ensures
            final(self).pending() is None,
            ran == (old(self).pending() is Some),
            old(self).pending() matches Some(f) ==> call_ensures(f, (), ()),
    {
        let taken = self.action.take();
        match taken {
            Some(f) => {
                f();
                true
            },
            None => false,
        }
    }
}

impl<F: FnOnce()> Cancellable for AnonymousCancellable<F> {
    open spec fn wf(self) -> bool {
        self.pending() matches Some(f) ==> call_requires(f, ())
    }

    fn cancel(self)
        ensures
            self.pending() matches Some(f) ==> call_ensures(f, (), ()),
    {
        let mut s = self;
        s.trigger();
    }
}

impl<F: FnOnce()> Drop for AnonymousCancellable<F> {
    /// Scope-exit trigger.  Verus cannot reason about a drop body that moves
    /// a generic action, so this repeats the verified `trigger` path on
    /// trust: it relies on the action meeting its own precondition — which
    /// `new` requires — and on it not unwinding.
    #[verifier::external_body]
    fn drop(&mut self)
        opens_invariants none
        no_unwind
    {
        self.trigger();
    }
}

} // verus!
