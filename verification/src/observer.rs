pub mod anonymous_observer;
pub mod event;

use crate::observer::event::Terminated;
use vstd::prelude::*;

verus! {

/// The terminal state a producer may emit on its own: a stream either runs to
/// a successful end or fails with an error.  Cancellation is never emitted by
/// a producer; the engine synthesizes [`Terminated::Unsubscribed`] on
/// disposal, which is why that variant has no counterpart here.
#[derive(Debug, PartialEq, Eq, Clone)]
pub enum Terminal<E> {
    /// The operation has completed successfully.
    Completed,
    /// The operation has completed with an error.
    Error(E),
}

impl<E> Terminal<E> {
    /// The terminal state an observer records when this signal reaches it.
    pub fn into_terminated(self) -> (r: Terminated<E>)
        ensures
            r == self.as_terminated(),
    {
        match self {
            Terminal::Completed => Terminated::Completed,
            Terminal::Error(error) => Terminated::Error(error),
        }
    }

    /// Spec-level counterpart of [`Terminal::into_terminated`].
    pub open spec fn as_terminated(self) -> Terminated<E> {
        match self {
            Terminal::Completed => Terminated::Completed,
            Terminal::Error(error) => Terminated::Error(error),
        }
    }
}

/// A consumer of a stream: it is handed each value in turn and then exactly
/// one final state, which consumes it.
///
/// The engine promises a well-behaved delivery sequence to every observer it
/// drives: values in emission order, then at most one final state, with
/// nothing after it.  That discipline is enforced by the delivery latches of
/// the engine (see [`crate::delivery`]), not by implementors.
pub trait Observer<T, E> where Self: core::marker::Sized {
    /// Receives the next value of the stream.
    fn on_next(&mut self, value: T);

    /// Receives the final state of the stream, consuming the observer.
    /// This is the engine-facing entry: it covers cancellation
    /// ([`Terminated::Unsubscribed`]) as well as the producer-emitted ends.
    fn on_terminated(self, terminated: Terminated<E>);

    /// Receives a producer-emitted terminal signal, consuming the observer.
    fn on_terminal(self, terminal: Terminal<E>) {
        match terminal {
            Terminal::Completed => self.on_terminated(Terminated::Completed),
            Terminal::Error(error) => self.on_terminated(Terminated::Error(error)),
        }
    }
}

} // verus!
