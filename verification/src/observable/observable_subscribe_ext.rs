use crate::disposable::Disposable;
use crate::observable::Observable;
use crate::observer::event::Terminated;
use crate::observer::Observer;
use core::marker::PhantomData;
use vstd::prelude::*;

verus! {

/// An observer assembled from two callbacks: one for values and one for the
/// final state.
#[verifier::reject_recursive_types(T)]
#[verifier::reject_recursive_types(E)]
pub struct ObservableSubscribeExtObserver<T, E, FN: Fn(T), FT: FnOnce(Terminated<E>)> {
    on_next: FN,
    on_terminal: FT,
    _marker: PhantomData<(T, E)>,
}

impl<T, E, FN: Fn(T), FT: FnOnce(Terminated<E>)> ObservableSubscribeExtObserver<T, E, FN, FT> {
    #[verifier::type_invariant]
    spec fn inv(self) -> bool {
        &&& forall|v: T| call_requires(self.on_next, (v,))
        &&& forall|t: Terminated<E>| call_requires(self.on_terminal, (t,))
    }

    /// Assembles the two callbacks; each must accept every argument.
    pub fn new(on_next: FN, on_terminal: FT) -> (r: ObservableSubscribeExtObserver<
        T,
        E,
        FN,
        FT,
    >)
        requires
            forall|v: T| call_requires(on_next, (v,)),
            forall|t: Terminated<E>| call_requires(on_terminal, (t,)),
    {
        ObservableSubscribeExtObserver { on_next, on_terminal, _marker: PhantomData }
    }
}

impl<T, E, FN: Fn(T), FT: FnOnce(Terminated<E>)> Observer<T, E> for ObservableSubscribeExtObserver<
    T,
    E,
    FN,
    FT,
> {
    fn on_next(&mut self, value: T) {
        proof {
            use_type_invariant(&*self);
        }
        (self.on_next)(value);
    }

    fn on_terminated(self, terminated: Terminated<E>) {
        proof {
            use_type_invariant(&self);
        }
        let ObservableSubscribeExtObserver { on_next, on_terminal, _marker } = self;
        on_terminal(terminated);
    }
}

/// Lets a subscription be written as two callbacks instead of an observer.
pub trait ObservableSubscribeExt<T, E, FN, FT> where
    FN: Fn(T),
    FT: FnOnce(Terminated<E>),
    Self: core::marker::Sized,
 {
    /// The disposal handle `subscribe_on` returns.
    type Unsub: Disposable;

    /// Subscribes with `on_next` for each value and `on_terminal` for the
    /// final state; each callback must accept every argument.
    fn subscribe_on(self, on_next: FN, on_terminal: FT) -> (r: Self::Unsub)
        requires
            forall|v: T| call_requires(on_next, (v,)),
            forall|t: Terminated<E>| call_requires(on_terminal, (t,)),
        ensures
            r.wf(),
    ;
}

impl<T, E, FN, FT, OE> ObservableSubscribeExt<T, E, FN, FT> for OE where
    FN: Fn(T),
    FT: FnOnce(Terminated<E>),
    OE: Observable<T, E, ObservableSubscribeExtObserver<T, E, FN, FT>>,
 {
    type Unsub = OE::Unsub;

    fn subscribe_on(self, on_next: FN, on_terminal: FT) -> (r: OE::Unsub) {
        self.subscribe(ObservableSubscribeExtObserver::new(on_next, on_terminal))
    }
}

} // verus!
