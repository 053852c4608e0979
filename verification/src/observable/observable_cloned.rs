use crate::disposable::Disposable;
use crate::observable::Observable;
use crate::observer::Observer;
use vstd::prelude::*;

verus! {

/// Subscribing without giving the observable up: the source is cloned once
/// per subscription, so the caller keeps its handle.
pub trait ObservableCloned<T, E, OR: Observer<T, E>> where Self: core::marker::Sized {
    /// The disposal handle `subscribe_cloned` returns.
    type Unsub: Disposable;

    /// Subscribes `observer` to a clone of this observable; the handle is
    /// always fit to dispose.
    fn subscribe_cloned(&self, observer: OR) -> (r: Self::Unsub)
        ensures
            r.wf(),
    ;
}

impl<T, E, OR, OE> ObservableCloned<T, E, OR> for OE where
    OR: Observer<T, E>,
    OE: Observable<T, E, OR> + Clone,
 {
    type Unsub = OE::Unsub;

    fn subscribe_cloned(&self, observer: OR) -> (r: OE::Unsub) {
        self.clone().subscribe(observer)
    }
}

} // verus!
