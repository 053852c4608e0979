use crate::disposable::anonymous_disposable::AnonymousDisposable;
use crate::disposable::nop_disposable::NopDisposable;
use crate::disposable::Disposable;
use vstd::prelude::*;

verus! {

/// One disposal trigger applied to the state of a scoped handle: the first
/// trigger takes the cleanup out and runs it, every later one finds nothing.
pub open spec fn dispose_trigger<A>(state: Option<A>) -> (Option<A>, bool) {
    match state {
        Some(_) => (None::<A>, true),
        None => (None::<A>, false),
    }
}

/// Idempotent disposal: of any two disposal triggers that reach one handle —
/// an explicit `unsubscribe` and the end of scope, in either role — only the
/// first can run the cleanup, so it runs at most once.
pub proof fn lemma_disposal_idempotent<A>(state: Option<A>)
    ensures
        !(dispose_trigger(state).1 && dispose_trigger(dispose_trigger(state).0).1),
        dispose_trigger(dispose_trigger(state).0).0 is None,
{
}

/// The handle for one active delivery relationship: disposing it runs its
/// cleanup action — which stops future delivery — exactly once, whether it is
/// disposed explicitly through [`Subscription::unsubscribe`] or by going out
/// of scope.
pub struct Subscription<A: Disposable> {
    dispose: Option<A>,
}

impl<A: Disposable> Subscription<A> {
    /// The cleanup still waiting to run, if any.
    pub closed spec fn pending(self) -> Option<A> {
        self.dispose
    }

    /// Wraps an already-built disposable as a subscription handle.
    pub fn from_disposable(dispose: A) -> (r: Subscription<A>)
        requires
            dispose.wf(),
        ensures
            r.wf(),
            r.pending() == Some(dispose),
    {
        Subscription { dispose: Some(dispose) }
    }

    /// A handle that is already spent: disposal will find nothing to run.
    pub fn detached() -> (r: Subscription<A>)
        ensures
            r.wf(),
            r.pending() is None,
    {
        Subscription { dispose: None }
    }

    /// The shared one-shot path behind `unsubscribe` and the drop handler:
    /// takes the cleanup out, so the other trigger finds nothing to run.
    fn trigger(&mut self) -> (ran: bool)
        requires
            old(self).wf(),
        ensures
            final(self).wf(),
            (final(self).pending(), ran) == dispose_trigger(old(self).pending()),
            old(self).pending() matches Some(a) ==> a.done(),
    {
        let taken = self.dispose.take();
        match taken {
            Some(a) => {
                a.dispose();
                true
            },
            None => false,
        }
    }

    /// Disposes the subscription, running its cleanup if it has not run yet.
    pub fn unsubscribe(self)
        requires
            self.wf(),
        ensures
            self.pending() matches Some(a) ==> a.done(),
    {
        let mut s = self;
        s.trigger();
    }
}

impl<F: FnOnce()> Subscription<AnonymousDisposable<F>> {
    /// Builds a subscription whose cleanup is the given closure; it runs when
    /// the subscription is unsubscribed or dropped, and at most once.
    pub fn new(dispose: F) -> (r: Subscription<AnonymousDisposable<F>>)
        requires
            call_requires(dispose, ()),
        ensures
            r.wf(),
            r.pending() matches Some(a) && a.pending() == Some(dispose),
    {
        Subscription { dispose: Some(AnonymousDisposable::new(dispose)) }
    }
}

impl Subscription<NopDisposable> {
    /// A subscription with no cleanup: unsubscribing or dropping it does
    /// nothing.
    pub fn new_empty() -> (r: Subscription<NopDisposable>)
        ensures
            r.wf(),
    {
        Subscription { dispose: Some(NopDisposable) }
    }
}

impl<A: Disposable> Disposable for Subscription<A> {
    /// A well-formed handle holds a runnable cleanup or none at all.
    open spec fn wf(self) -> bool {
        self.pending() matches Some(a) ==> a.wf()
    }

    /// Once disposed, the handle's own cleanup has run to completion.
    open spec fn done(self) -> bool {
        self.pending() matches Some(a) ==> a.done()
    }

    fn dispose(self) {
        self.unsubscribe();
    }
}

impl<A: Disposable> Drop for Subscription<A> {
    /// Scope-exit trigger.  Verus cannot reason about a drop body that moves
    /// a generic action, so this repeats the verified `trigger` path on
    /// trust: it relies on the handle being well formed — which every
    /// constructor ensures — and on the cleanup not unwinding.
    #[verifier::external_body]
    fn drop(&mut self)
        opens_invariants none
        no_unwind
    {
        self.trigger();
    }
}

} // verus!
