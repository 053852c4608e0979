use crate::disposable::Disposable;
use crate::observable::Observable;
use crate::observer::event::Terminated;
use crate::observer::{Observer, Terminal};
use core::marker::PhantomData;
use std::sync::Arc;
use vstd::prelude::*;

verus! {

/// The observer handed to a [`Create`] subscription handler: a plain wrapper
/// that forwards every signal to the real downstream observer, fixing the
/// observer type the handler is written against.
pub struct CreateObserver<OR>(pub OR);

impl<T, E, OR: Observer<T, E>> Observer<T, E> for CreateObserver<OR> {
    fn on_next(&mut self, value: T) {
        self.0.on_next(value);
    }

    fn on_terminated(self, terminated: Terminated<E>) {
        self.0.on_terminated(terminated);
    }

    fn on_terminal(self, terminal: Terminal<E>) {
        self.0.on_terminal(terminal);
    }
}

/// A subscription handler packaged with the facts that it accepts every
/// observer and always hands back a well-formed disposal handle.
#[verifier::reject_recursive_types(OR)]
#[verifier::reject_recursive_types(D)]
pub struct CreateHandler<OR, D: Disposable, F: Fn(CreateObserver<OR>) -> D> {
    handler: Arc<F>,
    _marker: PhantomData<(OR, D)>,
}

impl<OR, D: Disposable, F: Fn(CreateObserver<OR>) -> D> Clone for CreateHandler<OR, D, F> {
    /// The clone shares the packaged handler, and with it the facts above.
    fn clone(&self) -> (res: Self)
        ensures
            res == *self,
    {
        proof {
            use_type_invariant(&*self);
        }
        CreateHandler { handler: crate::shared::clone_arc(&self.handler), _marker: PhantomData }
    }
}

impl<OR, D: Disposable, F: Fn(CreateObserver<OR>) -> D> CreateHandler<OR, D, F> {
    /// The handler this package applies.
    pub closed spec fn func(self) -> F {
        *self.handler
    }

    #[verifier::type_invariant]
    spec fn inv(self) -> bool {
        &&& forall|o: CreateObserver<OR>| call_requires(*self.handler, (o,))
        &&& forall|o: CreateObserver<OR>, r: D|
            call_ensures(*self.handler, (o,), r) ==> r.wf()
    }

    /// Packages `handler`, which must accept every observer and hand back a
    /// well-formed disposal handle.
    pub fn new(handler: F) -> (r: CreateHandler<OR, D, F>)
        requires
            forall|o: CreateObserver<OR>| call_requires(handler, (o,)),
            forall|o: CreateObserver<OR>, ret: D| call_ensures(handler, (o,), ret) ==> ret.wf(),
        ensures
            r.func() == handler,
    {
        CreateHandler { handler: Arc::new(handler), _marker: PhantomData }
    }

    /// Runs the handler for one subscription: the result is the handler's
    /// own output on the wrapped observer, and it is fit to dispose.
    pub fn apply(&self, observer: OR) -> (r: D)
        ensures
            call_ensures(self.func(), (CreateObserver(observer),), r),
            r.wf(),
    {
        proof {
            use_type_invariant(&*self);
        }
        (*self.handler)(CreateObserver(observer))
    }
}

/// An observable built from a subscription handler: each subscription runs
/// the handler, which emits whatever events it likes at the observer it is
/// given and hands back the subscription's disposal handle.
#[verifier::reject_recursive_types(OR)]
#[verifier::reject_recursive_types(D)]
pub struct Create<F: Fn(CreateObserver<OR>) -> D, OR, D: Disposable> {
    subscribe_handler: CreateHandler<OR, D, F>,
}

impl<F: Fn(CreateObserver<OR>) -> D, OR, D: Disposable> Clone for Create<F, OR, D> {
    fn clone(&self) -> (res: Self) {
        Create { subscribe_handler: self.subscribe_handler.clone() }
    }
}

impl<F: Fn(CreateObserver<OR>) -> D, OR, D: Disposable> Create<F, OR, D> {
    /// The subscription handler this observable runs.
    pub closed spec fn handler_of(self) -> F {
        self.subscribe_handler.func()
    }

    /// Wraps `subscribe_handler`; it must accept every observer and hand
    /// back a well-formed disposal handle.
    pub fn new(subscribe_handler: F) -> (r: Create<F, OR, D>)
        requires
            forall|o: CreateObserver<OR>| call_requires(subscribe_handler, (o,)),
            forall|o: CreateObserver<OR>, ret: D|
                call_ensures(subscribe_handler, (o,), ret) ==> ret.wf(),
        ensures
            r.handler_of() == subscribe_handler,
    {
        Create { subscribe_handler: CreateHandler::new(subscribe_handler) }
    }
}

impl<T, E, OR, D, F> Observable<T, E, OR> for Create<F, OR, D> where
    OR: Observer<T, E>,
    D: Disposable,
    F: Fn(CreateObserver<OR>) -> D,
 {
    type Unsub = D;

    /// Runs the handler with the wrapped observer; the returned handle is
    /// the handler's own output on that observer.
    fn subscribe(self, observer: OR) -> (r: D)
        ensures
            call_ensures(self.handler_of(), (CreateObserver(observer),), r),
    {
        self.subscribe_handler.apply(observer)
    }
}

} // verus!
