use crate::disposable::nop_disposable::NopDisposable;
use crate::observable::Observable;
use crate::observer::{Observer, Terminal};
use crate::subscription::Subscription;
use std::convert::Infallible;
use vstd::prelude::*;

verus! {

/// An observable that emits a single value and then completes.
#[derive(Clone)]
pub struct Just<T> {
    value: T,
}

impl<T> Just<T> {
    /// The value this observable emits.
    pub closed spec fn value_of(self) -> T {
        self.value
    }

    /// An observable that emits `value` to each subscriber, then completes.
    pub fn new(value: T) -> (r: Just<T>)
        ensures
            r.value_of() == value,
    {
        Just { value }
    }
}

impl<T, OR: Observer<T, Infallible>> Observable<T, Infallible, OR> for Just<T> {
    type Unsub = Subscription<NopDisposable>;

    /// Delivers the value and the completion synchronously; there is nothing
    /// left to cancel, so the handle is empty.
    fn subscribe(self, observer: OR) -> (r: Subscription<NopDisposable>) {
        let mut observer = observer;
        observer.on_next(self.value);
        observer.on_terminal(Terminal::Completed);
        Subscription::new_empty()
    }
}

} // verus!
