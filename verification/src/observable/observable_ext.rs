use crate::disposable::Disposable;
use crate::observable::observable_cloned::ObservableCloned;
use crate::observable::observable_subscribe_ext::ObservableSubscribeExtObserver;
use crate::observer::event::Terminated;
use vstd::prelude::*;

verus! {

/// Lets a subscription to a clone of an observable be written as two
/// callbacks, or as a callback for values alone.
pub trait ObservableExt<T, E, FN, FT> where
    FN: Fn(T),
    FT: FnOnce(Terminated<E>),
    Self: core::marker::Sized,
 {
    /// The disposal handle the subscription returns.
    type Unsub: Disposable;

    /// Subscribes to a clone of this observable with `on_next` for each
    /// value and `on_terminated` for the final state; each callback must
    /// accept every argument.
    fn subscribe_on(&self, on_next: FN, on_terminated: FT) -> (r: Self::Unsub)
        requires
            forall|v: T| call_requires(on_next, (v,)),
            forall|t: Terminated<E>| call_requires(on_terminated, (t,)),
        ensures
            r.wf(),
    ;
}

impl<T, E, FN, FT, OE> ObservableExt<T, E, FN, FT> for OE where
    FN: Fn(T),
    FT: FnOnce(Terminated<E>),
    OE: ObservableCloned<T, E, ObservableSubscribeExtObserver<T, E, FN, FT>>,
 {
    type Unsub = OE::Unsub;

    fn subscribe_on(&self, on_next: FN, on_terminated: FT) -> (r: OE::Unsub) {
        self.subscribe_cloned(ObservableSubscribeExtObserver::new(on_next, on_terminated))
    }
}

} // verus!
