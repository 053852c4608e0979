use crate::disposable::Disposable;
use crate::observable::observable_cloned::ObservableCloned;
use crate::observer::anonymous_observer::AnonymousObserver;
use crate::observer::event::{Event, Terminated};
use crate::observer::Observer;
use core::marker::PhantomData;
use vstd::prelude::*;

verus! {

/// An observer built from a callback for values alone: terminal states are
/// observed and dropped.
#[verifier::reject_recursive_types(T)]
#[verifier::reject_recursive_types(E)]
pub struct NextOnlyObserver<T, E, G: Fn(T)> {
    on_next: G,
    _marker: PhantomData<(T, E)>,
}

impl<T, E, G: Fn(T)> NextOnlyObserver<T, E, G> {
    #[verifier::type_invariant]
    spec fn inv(self) -> bool {
        forall|v: T| call_requires(self.on_next, (v,))
    }

    /// Wraps `on_next`, which must accept every value.
    pub fn new(on_next: G) -> (r: NextOnlyObserver<T, E, G>)
        requires
            forall|v: T| call_requires(on_next, (v,)),
    {
        NextOnlyObserver { on_next, _marker: PhantomData }
    }
}

impl<T, E, G: Fn(T)> Observer<T, E> for NextOnlyObserver<T, E, G> {
    fn on_next(&mut self, value: T) {
        proof {
            use_type_invariant(&*self);
        }
        (self.on_next)(value);
    }

    fn on_terminated(self, terminated: Terminated<E>) {
    }
}

/// Lets a subscription to a clone of an observable be written as a single
/// event callback.
pub trait ObservableSubscribeClonedExt<T, E, F: Fn(Event<T, E>)> where
    Self: core::marker::Sized,
 {
    /// The disposal handle `subscribe_cloned_on_event` returns.
    type Unsub: Disposable;

    /// Subscribes `on_event` to a clone of this observable; the callback
    /// must accept every event.
    fn subscribe_cloned_on_event(&self, on_event: F) -> (r: Self::Unsub)
        requires
            forall|e: Event<T, E>| call_requires(on_event, (e,)),
        ensures
            r.wf(),
    ;
}

impl<T, E, F, OE> ObservableSubscribeClonedExt<T, E, F> for OE where
    F: Fn(Event<T, E>),
    OE: ObservableCloned<T, E, AnonymousObserver<T, E, F>>,
 {
    type Unsub = OE::Unsub;

    fn subscribe_cloned_on_event(&self, on_event: F) -> (r: OE::Unsub) {
        self.subscribe_cloned(AnonymousObserver::new(on_event))
    }
}

/// Lets a subscription to a clone of an observable be written as a callback
/// for values alone.
pub trait ObservableSubscribeClonedNextExt<T, E, G: Fn(T)> where
    Self: core::marker::Sized,
 {
    /// The disposal handle `subscribe_cloned_on_next` returns.
    type Unsub: Disposable;

    /// Subscribes `on_next` to a clone of this observable, dropping terminal
    /// states; the callback must accept every value.
    fn subscribe_cloned_on_next(&self, on_next: G) -> (r: Self::Unsub)
        requires
            forall|v: T| call_requires(on_next, (v,)),
        ensures
            r.wf(),
    ;
}

impl<T, E, G, OE> ObservableSubscribeClonedNextExt<T, E, G> for OE where
    G: Fn(T),
    OE: ObservableCloned<T, E, NextOnlyObserver<T, E, G>>,
 {
    type Unsub = OE::Unsub;

    fn subscribe_cloned_on_next(&self, on_next: G) -> (r: OE::Unsub) {
        self.subscribe_cloned(NextOnlyObserver::new(on_next))
    }
}

} // verus!
