use crate::disposable::Disposable;
use vstd::prelude::*;

verus! {

/// A disposable built from a closure.  The closure runs when the disposable
/// is disposed or dropped, and it runs at most once.
pub struct AnonymousDisposable<F: FnOnce()> {
    action: Option<F>,  // None once the action has run
}

impl<F: FnOnce()> AnonymousDisposable<F> {
    /// The action still waiting to run, if any.
    pub closed spec fn pending(self) -> Option<F> {
        self.action
    }

    /// Wraps `action`; it will be run by `dispose` or by the drop handler.
    pub fn new(action: F) -> (r: AnonymousDisposable<F>)
        requires
            call_requires(action, ()),
        ensures
            r.wf(),
            r.pending() == Some(action),
    {
        AnonymousDisposable { action: Some(action) }
    }

    /// The shared one-shot path behind `dispose` and the drop handler: takes
    /// the action out, so a second trigger finds nothing to run.
    fn trigger(&mut self) -> (ran: bool)
        requires
            old(self).wf(),
        ensures
            final(self).pending() is None,
            ran == (old(self).pending() is Some),
            old(self).pending() matches Some(f) ==> call_ensures(f, (), ()),
    {
        let taken = self.action.take();
        match taken {
            Some(f) => {
                f();
                true
            },
            None => false,
        }
    }
}

impl<F: FnOnce()> Disposable for AnonymousDisposable<F> {
    open spec fn wf(self) -> bool {
        self.pending() matches Some(f) ==> call_requires(f, ())
    }

    /// Once disposed, the wrapped action has run to completion.
    open spec fn done(self) -> bool {
        self.pending() matches Some(f) ==> call_ensures(f, (), ())
    }

    fn dispose(self) {
        let mut s = self;
        s.trigger();
    }
}

impl<F: FnOnce()> Drop for AnonymousDisposable<F> {
    /// Scope-exit trigger.  Verus cannot reason about a drop body that moves
    /// a generic action, so this repeats the verified `trigger` path on
    /// trust: it relies on the action meeting its own precondition — which
    /// `new` requires — and on it not unwinding.
    #[verifier::external_body]
    fn drop(&mut self)
        opens_invariants none
        no_unwind
    {
        self.trigger();
    }
}

} // verus!
