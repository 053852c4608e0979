use crate::disposable::nop_disposable::NopDisposable;
use crate::observable::Observable;
use crate::observer::{Observer, Terminal};
use crate::subscription::Subscription;
use std::convert::Infallible;
use vstd::prelude::*;

verus! {

/// An observable that emits a single error and nothing else.
#[derive(Clone)]
pub struct Throw<E> {
    error: E,
}

impl<E> Throw<E> {
    /// The error this observable emits.
    pub closed spec fn error_of(self) -> E {
        self.error
    }

    /// An observable that fails each subscriber with `error`.
    pub fn new(error: E) -> (r: Throw<E>)
        ensures
            r.error_of() == error,
    {
        Throw { error }
    }
}

impl<E, OR: Observer<Infallible, E>> Observable<Infallible, E, OR> for Throw<E> {
    type Unsub = Subscription<NopDisposable>;

    /// Delivers the error synchronously; there is nothing left to cancel, so
    /// the handle is empty.
    fn subscribe(self, observer: OR) -> (r: Subscription<NopDisposable>) {
        observer.on_terminal(Terminal::Error(self.error));
        Subscription::new_empty()
    }
}

} // verus!
