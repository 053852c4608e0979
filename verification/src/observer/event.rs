use vstd::prelude::*;

verus! {

/// The final state of a subscription as an observer records it: the producer
/// completed, the producer failed, or the subscription was cancelled before
/// either happened.
#[derive(Debug, PartialEq, Eq, Clone)]
pub enum Terminated<E> {
    Error(E),
    Unsubscribed,
    Completed,
}

/// One signal travelling from a producer to an observer: either the next
/// value of the stream or its final state.
#[derive(Debug, PartialEq, Eq)]
pub enum Event<T, E> {
    Next(T),
    Terminated(Terminated<E>),
}

impl<T, E> Event<T, E> {
    /// Maps the value carried by a `Next` event, leaving every terminal
    /// state untouched: transformation never invents or destroys an end of
    /// stream.
    pub fn map_value<T2, F: Fn(T) -> T2>(self, f: F) -> (r: Event<T2, E>)
        requires
            self matches Event::Next(v) ==> call_requires(f, (v,)),
        ensures
            self matches Event::Terminated(t) ==> r == Event::<T2, E>::Terminated(t),
            self matches Event::Next(v) ==> r matches Event::Next(w) && call_ensures(
                f,
                (v,),
                w,
            ),
    {
        match self {
            Event::Next(value) => Event::Next(f(value)),
            Event::Terminated(terminated) => Event::Terminated(terminated),
        }
    }

    /// Maps the error carried by an `Error` terminal state, leaving values,
    /// completion and cancellation untouched.
    pub fn map_error<E2, F: Fn(E) -> E2>(self, f: F) -> (r: Event<T, E2>)
        requires
            self matches Event::Terminated(Terminated::Error(e)) ==> call_requires(f, (e,)),
        ensures
            self matches Event::Next(v) ==> r == Event::<T, E2>::Next(v),
            self == Event::<T, E>::Terminated(Terminated::Unsubscribed) ==> r == Event::<
                T,
                E2,
            >::Terminated(Terminated::Unsubscribed),
            self == Event::<T, E>::Terminated(Terminated::Completed) ==> r == Event::<
                T,
                E2,
            >::Terminated(Terminated::Completed),
            self matches Event::Terminated(Terminated::Error(e)) ==> r matches Event::Terminated(
                Terminated::Error(e2),
            ) && call_ensures(f, (e,), e2),
    {
        match self {
            Event::Next(value) => Event::Next(value),
            Event::Terminated(terminated) => match terminated {
                Terminated::Error(error) => Event::Terminated(Terminated::Error(f(error))),
                Terminated::Unsubscribed => Event::Terminated(Terminated::Unsubscribed),
                Terminated::Completed => Event::Terminated(Terminated::Completed),
            },
        }
    }
}

} // verus!
