//! A push-based reactive-event engine.
//!
//! Producers ([`observable::Observable`]) deliver a stream of values followed
//! by exactly one terminal signal to consumers ([`observer::Observer`]).
//! Subscribing yields a [`subscription::Subscription`] that can cancel the
//! delivery relationship; cancellation is idempotent and synthesizes a final
//! [`observer::event::Terminated::Unsubscribed`] signal for an observer that
//! has not yet terminated.  [`subject::base_subject::BaseSubject`] multicasts
//! one upstream stream to many downstream observers, and
//! [`subject::behavior_subject::BehaviorSubject`] additionally replays its
//! latest value to late subscribers.  [`operators::delay::Delay`] defers
//! delivery through a [`scheduler::Scheduler`], letting errors bypass the
//! delay.
//!
//! The delivery discipline — every observer sees at most one terminal event,
//! always last — is captured by the ghost model in [`delivery`] and proved of
//! the registry that backs the subjects.

pub mod cancellable;
pub mod delivery;
pub mod disposable;
pub mod observable;
pub mod observer;
pub mod operators;
pub mod scheduler;
pub mod shared;
pub mod subject;
pub mod subscriber;
pub mod subscription;
pub mod utils;
