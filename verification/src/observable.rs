pub mod error;
pub mod just;
pub mod observable_cloned;
pub mod observable_ext;
pub mod observable_into_ext;
pub mod observable_subscribe_cloned_ext;
pub mod observable_subscribe_ext;

use crate::disposable::Disposable;
use crate::observer::Observer;
use vstd::prelude::*;

verus! {

/// A source of events that an [`Observer`] can subscribe to.
///
/// Subscribing consumes the observable value — a source that supports many
/// independent subscriptions is cloned once per subscription — and hands
/// back a disposal handle for that one delivery relationship.  The source
/// begins delivering from within `subscribe`, synchronously or later; it
/// must never deliver more than one terminal event to the observer, and
/// disposing the handle stops future delivery to this observer alone.
pub trait Observable<T, E, OR: Observer<T, E>> where Self: core::marker::Sized {
    /// The disposal handle `subscribe` returns.
    type Unsub: Disposable;

    /// Subscribes `observer` to this source and returns the handle that can
    /// cancel the subscription; the handle is always fit to dispose.
    fn subscribe(self, observer: OR) -> (r: Self::Unsub)
        ensures
            r.wf(),
    ;
}

} // verus!
