use vstd::prelude::*;

verus! {

/// A scope guard: it runs its action when it is disposed or dropped, and it
/// runs it at most once.
pub struct Disposal<F: FnOnce()> {
    action: Option<F>,
}

impl<F: FnOnce()> Disposal<F> {
    /// The action still waiting to run, if any.
    pub closed spec fn pending(self) -> Option<F> {
        self.action
    }

    /// A well-formed guard holds a runnable action or none at all.
    pub open spec fn wf(self) -> bool {
        self.pending() matches Some(f) ==> call_requires(f, ())
    }

    /// A guard with nothing to run.
    pub fn new_no_action() -> (r: Disposal<F>)
        ensures
            r.wf(),
            r.pending() is None,
    {
        Disposal { action: None }
    }

    /// Wraps `action`; it will be run by `dispose` or by the drop handler.
    pub fn new(action: F) -> (r: Disposal<F>)
        requires
            call_requires(action, ()),
        ensures
            r.wf(),
            r.pending() == Some(action),
    {
        Disposal { action: Some(action) }
    }

    /// The shared one-shot path behind `dispose` and the drop handler.
    fn trigger(&mut self) -> (ran: bool)
        requires
            old(self).wf(),
        ensures
            final(self).pending() is None,
            ran == (old(self).pending() is Some),
            old(self).pending() matches Some(f) ==> call_ensures(f, (), ()),
    {
        let taken = self.action.take();
        match taken {
            Some(f) => {
                f();
                true
            },
            None => false,
        }
    }

    /// Runs the action now, if it has not run yet.
    pub fn dispose(self)
        requires
            self.wf(),
        ensures
            self.pending() matches Some(f) ==> call_ensures(f, (), ()),
    {
        let mut s = self;
        s.trigger();
    }
}

impl<F: FnOnce()> Drop for Disposal<F> {
    /// Scope-exit trigger.  Verus cannot reason about a drop body that moves
    /// a generic action, so this repeats the verified `trigger` path on
    /// trust: it relies on the guard being well formed — which both
    /// constructors ensure — and on the action not unwinding.
    #[verifier::external_body]
    fn drop(&mut self)
        opens_invariants none
        no_unwind
    {
        self.trigger();
    }
}

} // verus!
