use crate::disposable::anonymous_disposable::AnonymousDisposable;
use crate::disposable::nop_disposable::NopDisposable;
use crate::disposable::Disposable;
use crate::subscription::dispose_trigger;
use vstd::prelude::*;

verus! {

/// An alternative name for the handle of one active delivery relationship,
/// kept alongside [`crate::subscription::Subscription`] with the same shape
/// and the same at-most-once disposal discipline.
pub struct Subscriber<A: Disposable> {
    dispose: Option<A>,
}

impl<A: Disposable> Subscriber<A> {
    /// The cleanup still waiting to run, if any.
    pub closed spec fn pending(self) -> Option<A> {
        self.dispose
    }

    /// Wraps an already-built disposable as a subscriber handle.
    pub fn from_disposable(dispose: A) -> (r: Subscriber<A>)
        requires
            dispose.wf(),
        ensures
            r.wf(),
            r.pending() == Some(dispose),
    {
        Subscriber { dispose: Some(dispose) }
    }

    /// A handle that is already spent: disposal will find nothing to run.
    pub fn detached() -> (r: Subscriber<A>)
        ensures
            r.wf(),
            r.pending() is None,
    {
        Subscriber { dispose: None }
    }

    /// The shared one-shot path behind `unsubscribe` and the drop handler:
    /// takes the cleanup out, so the other trigger finds nothing to run.
    fn trigger(&mut self) -> (ran: bool)
        requires
            old(self).wf(),
        ensures
            final(self).wf(),
            (final(self).pending(), ran) == dispose_trigger(old(self).pending()),
            old(self).pending() matches Some(a) ==> a.done(),
    {
        let taken = self.dispose.take();
        match taken {
            Some(a) => {
                a.dispose();
                true
            },
            None => false,
        }
    }

    /// Disposes the subscriber, running its cleanup if it has not run yet.
    pub fn unsubscribe(self)
        requires
            self.wf(),
        ensures
            self.pending() matches Some(a) ==> a.done(),
    {
        let mut s = self;
        s.trigger();
    }
}

impl<F: FnOnce()> Subscriber<AnonymousDisposable<F>> {
    /// Builds a subscriber whose cleanup is the given closure; it runs when
    /// the subscriber is unsubscribed or dropped, and at most once.
    pub fn new(dispose: F) -> (r: Subscriber<AnonymousDisposable<F>>)
        requires
            call_requires(dispose, ()),
        ensures
            r.wf(),
            r.pending() matches Some(a) && a.pending() == Some(dispose),
    {
        Subscriber { dispose: Some(AnonymousDisposable::new(dispose)) }
    }
}

impl Subscriber<NopDisposable> {
    /// A subscriber with no cleanup: unsubscribing or dropping it does
    /// nothing.
    pub fn new_empty() -> (r: Subscriber<NopDisposable>)
        ensures
            r.wf(),
    {
        Subscriber { dispose: Some(NopDisposable) }
    }
}

impl<A: Disposable> Disposable for Subscriber<A> {
    /// A well-formed handle holds a runnable cleanup or none at all.
    open spec fn wf(self) -> bool {
        self.pending() matches Some(a) ==> a.wf()
    }

    /// Once disposed, the handle's own cleanup has run to completion.
    open spec fn done(self) -> bool {
        self.pending() matches Some(a) ==> a.done()
    }

    fn dispose(self) {
        self.unsubscribe();
    }
}

impl<A: Disposable> Drop for Subscriber<A> {
    /// Scope-exit trigger.  Verus cannot reason about a drop body that moves
    /// a generic action, so this repeats the verified `trigger` path on
    /// trust: it relies on the handle being well formed — which every
    /// constructor ensures — and on the cleanup not unwinding.
    #[verifier::external_body]
    fn drop(&mut self)
        opens_invariants none
        no_unwind
    {
        self.trigger();
    }
}

} // verus!
