use crate::observer::event::{Event, Terminated};
use crate::observer::Observer;
use core::marker::PhantomData;
use vstd::prelude::*;

verus! {

/// An observer that hands every signal it receives to one closure.
pub struct AnonymousObserver<T, E, F: Fn(Event<T, E>)> {
    received_event: F,
    _marker: PhantomData<(T, E)>,
}

impl<T, E, F: Fn(Event<T, E>)> AnonymousObserver<T, E, F> {
    /// The closure every signal is handed to.
    pub closed spec fn func(self) -> F {
        self.received_event
    }

    #[verifier::type_invariant]
    spec fn inv(self) -> bool {
        forall|e: Event<T, E>| call_requires(self.received_event, (e,))
    }

    /// Wraps `on_event` as an observer; the closure must accept every event.
    pub fn new(on_event: F) -> (r: Self)
        requires
            forall|e: Event<T, E>| call_requires(on_event, (e,)),
        ensures
            r.func() == on_event,
    {
        AnonymousObserver { received_event: on_event, _marker: PhantomData }
    }
}

impl<T, E, F: Fn(Event<T, E>)> Observer<T, E> for AnonymousObserver<T, E, F> {
    /// The closure ran on exactly the delivered value, and the observer is
    /// otherwise untouched.
    fn on_next(&mut self, value: T)
        ensures
            call_ensures(old(self).func(), (Event::<T, E>::Next(value),), ()),
            *final(self) == *old(self),
    {
        proof {
            use_type_invariant(&*self);
        }
        (self.received_event)(Event::Next(value));
    }

    /// The closure ran on exactly the delivered terminal state.
    fn on_terminated(self, terminated: Terminated<E>)
        ensures
            call_ensures(self.func(), (Event::<T, E>::Terminated(terminated),), ()),
    {
        proof {
            use_type_invariant(&self);
        }
        (self.received_event)(Event::Terminated(terminated));
    }
}

} // verus!
