use crate::observable::Observable;
use crate::observer::event::Terminated;
use crate::observer::{Observer, Terminal};
use core::marker::PhantomData;
use std::sync::Arc;
use vstd::prelude::*;

verus! {

/// A mapper function packaged with the fact that it accepts every value, so
/// that the observers interposed by [`Mapping`] can apply it without any
/// precondition of their own.
#[verifier::reject_recursive_types(TF)]
#[verifier::reject_recursive_types(TT)]
pub struct MapperFn<TF, TT, F: Fn(TF) -> TT> {
    mapper: Arc<F>,
    _marker: PhantomData<(TF, TT)>,
}

impl<TF, TT, F: Fn(TF) -> TT> Clone for MapperFn<TF, TT, F> {
    /// The clone shares the packaged function, and with it the fact that it
    /// accepts every value.
    fn clone(&self) -> (res: Self)
        ensures
            res == *self,
    {
        proof {
            use_type_invariant(&*self);
        }
        MapperFn { mapper: crate::shared::clone_arc(&self.mapper), _marker: PhantomData }
    }
}

impl<TF, TT, F: Fn(TF) -> TT> MapperFn<TF, TT, F> {
    /// The function this mapper applies.
    pub closed spec fn func(self) -> F {
        *self.mapper
    }

    #[verifier::type_invariant]
    spec fn inv(self) -> bool {
        forall|v: TF| call_requires(*self.mapper, (v,))
    }

    /// Packages `mapper`, which must accept every value.
    pub fn new(mapper: F) -> (r: MapperFn<TF, TT, F>)
        requires
            forall|v: TF| call_requires(mapper, (v,)),
        ensures
            r.func() == mapper,
    {
        MapperFn { mapper: Arc::new(mapper), _marker: PhantomData }
    }

    /// Applies the mapper to one value.
    pub fn apply(&self, value: TF) -> (r: TT)
        ensures
            call_ensures(self.func(), (value,), r),
    {
        proof {
            use_type_invariant(&*self);
        }
        (*self.mapper)(value)
    }
}

/// An observable that re-maps each value of a source observable through a
/// mapper function, touching neither terminal states nor the lifecycle.
#[derive(Clone)]
#[verifier::reject_recursive_types(TF)]
#[verifier::reject_recursive_types(TT)]
pub struct Mapping<TF, TT, OE, F: Fn(TF) -> TT> {
    source: OE,
    mapper: MapperFn<TF, TT, F>,
}

impl<TF, TT, OE, F: Fn(TF) -> TT> Mapping<TF, TT, OE, F> {
    /// Wraps `source` so that each value runs through `mapper` on its way
    /// down; the mapper must accept every value.
    pub fn new(source: OE, mapper: F) -> (r: Mapping<TF, TT, OE, F>)
        requires
            forall|v: TF| call_requires(mapper, (v,)),
    {
        Mapping { source, mapper: MapperFn::new(mapper) }
    }
}

impl<TF, TT, E, OR, OE, F> Observable<TT, E, OR> for Mapping<TF, TT, OE, F> where
    OR: Observer<TT, E>,
    OE: Observable<TF, E, MapObserver<TF, TT, OR, F>>,
    F: Fn(TF) -> TT,
 {
    type Unsub = OE::Unsub;

    /// Interposes a mapping observer between the source and `observer`; the
    /// source's own handle cancels the chain.
    fn subscribe(self, observer: OR) -> (r: OE::Unsub) {
        let Mapping { source, mapper } = self;
        source.subscribe(MapObserver { observer, mapper })
    }
}

/// The observer a [`Mapping`] interposes: it forwards each value through the
/// mapper and every terminal state untouched.
#[verifier::reject_recursive_types(TF)]
#[verifier::reject_recursive_types(TT)]
pub struct MapObserver<TF, TT, OR, F: Fn(TF) -> TT> {
    observer: OR,
    mapper: MapperFn<TF, TT, F>,
}

impl<TF, TT, E, OR, F> Observer<TF, E> for MapObserver<TF, TT, OR, F> where
    OR: Observer<TT, E>,
    F: Fn(TF) -> TT,
 {
    fn on_next(&mut self, value: TF) {
        let mapped = self.mapper.apply(value);
        self.observer.on_next(mapped);
    }

    fn on_terminated(self, terminated: Terminated<E>) {
        self.observer.on_terminated(terminated);
    }

    fn on_terminal(self, terminal: Terminal<E>) {
        self.observer.on_terminal(terminal);
    }
}

/// Lets `map` be written on any observable.
pub trait MappableObservable<TF, TT, F: Fn(TF) -> TT> where Self: core::marker::Sized {
    /// Re-maps each value of this observable through `f`, which must accept
    /// every value; terminal states pass through untouched.
    fn map(self, f: F) -> (r: Mapping<TF, TT, Self, F>)
        requires
            forall|v: TF| call_requires(f, (v,)),
    ;
}

impl<TF, TT, F: Fn(TF) -> TT, OE> MappableObservable<TF, TT, F> for OE {
    fn map(self, f: F) -> (r: Mapping<TF, TT, OE, F>) {
        Mapping::new(self, f)
    }
}

} // verus!
