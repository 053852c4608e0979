use crate::disposable::Disposable;
use crate::observable::Observable;
use crate::observer::event::{Event, Terminated};
use crate::observer::Observer;
use crate::subject::registry::Registry;
use crate::subject::Subject;
use crate::subscription::Subscription;
use std::sync::Arc;
use vstd::prelude::*;
use vstd::rwlock::{RwLock, RwLockPredicate};

verus! {

/// The lock invariant of a subject's registry: whatever goes into the lock
/// is a well-formed registry.
pub struct RegistryInv;

impl<T, E, O> RwLockPredicate<Registry<T, E, O>> for RegistryInv {
    open spec fn inv(self, v: Registry<T, E, O>) -> bool {
        v.wf()
    }
}

/// A thread-safe multicast hub: an observer and an observable at once.  Every
/// clone of a subject is a handle on the same registry, so one clone can be
/// subscribed to while another feeds events in.  Events pushed at the subject
/// are fanned out, under the registry lock, to every observer registered at
/// that moment; the first terminal event shuts the hub for good.
///
/// The delivery guarantees live in [`Registry`], whose well-formedness is
/// this subject's lock invariant.  Holding the lock across fan-out is a
/// deliberate trade: it is what lets the registry own each observer — so a
/// terminated observer is consumed and double delivery is impossible by
/// construction — and what serializes registration against delivery, at the
/// price that an observer must not call back into the subject it is
/// registered with (chain distinct subjects instead, as the engine's own
/// compositions do).  The synthesized cancellation signal is delivered
/// outside the lock.
pub struct BaseSubject<T, E, O> {
    state: Arc<RwLock<Registry<T, E, O>, RegistryInv>>,
}

impl<T, E, O> Clone for BaseSubject<T, E, O> {
    /// The clone is another handle on the very same registry.
    fn clone(&self) -> (res: Self)
        ensures
            res == *self,
    {
        BaseSubject { state: crate::shared::clone_arc(&self.state) }
    }
}

impl<T, E, O> BaseSubject<T, E, O> {
    /// A hub with no registrations and nothing yet accepted.
    pub fn new() -> BaseSubject<T, E, O> {
        BaseSubject { state: Arc::new(RwLock::new(Registry::new(), Ghost(RegistryInv))) }
    }
}

impl<T: Clone, E: Clone, O: Observer<T, E>> BaseSubject<T, E, O> {
    /// Accepts one upstream event under the registry lock; see
    /// [`Registry::publish`] for the exact effect on the hub's state.
    fn post(&self, event: Event<T, E>) {
        let (mut reg, handle) = self.state.acquire_write();
        reg.publish(event);
        handle.release_write(reg);
    }
}

impl<T, E, O> Default for BaseSubject<T, E, O> {
    fn default() -> BaseSubject<T, E, O> {
        BaseSubject::new()
    }
}

/// The cleanup a subject subscription runs: it takes the registration out of
/// the registry and, when the observer has not yet seen a terminal event,
/// sends it the synthetic `Unsubscribed` signal — exactly once, outside the
/// lock.  [`crate::delivery::lemma_cancellation_log`] states why the log the
/// observer ends up with is well formed.
pub struct Unregister<T, E, O> {
    subject: BaseSubject<T, E, O>,
    key: u64,
}

impl<T, E, O: Observer<T, E>> Disposable for Unregister<T, E, O> {
    open spec fn wf(self) -> bool {
        true
    }

    fn dispose(self) {
        let Unregister { subject, key } = self;
        let (mut reg, handle) = subject.state.acquire_write();
        let removed = reg.remove(key);
        handle.release_write(reg);
        match removed {
            Some(observer) => observer.on_terminated(Terminated::Unsubscribed),
            None => {},
        }
    }
}

impl<T: Clone, E: Clone, O: Observer<T, E>> Observable<T, E, O> for BaseSubject<T, E, O> {
    type Unsub = Subscription<Unregister<T, E, O>>;

    /// Registers `observer` under a fresh key.  A subject that has already
    /// terminated registers nothing: its stream is over and there is nothing
    /// left to deliver, so the observer is simply released.
    fn subscribe(self, observer: O) -> (r: Subscription<Unregister<T, E, O>>) {
        let (mut reg, handle) = self.state.acquire_write();
        let registered = if reg.terminated || reg.next_key == u64::MAX {
            None
        } else {
            Some(reg.add(observer, Ghost(Seq::empty())))
        };
        handle.release_write(reg);
        match registered {
            Some(key) => Subscription::from_disposable(Unregister { subject: self, key }),
            None => Subscription::detached(),
        }
    }
}

impl<T: Clone, E: Clone, O: Observer<T, E>> Observer<T, E> for BaseSubject<T, E, O> {
    fn on_next(&mut self, value: T) {
        self.post(Event::Next(value));
    }

    fn on_terminated(self, terminated: Terminated<E>) {
        self.post(Event::Terminated(terminated));
    }
}

impl<T: Clone, E: Clone, O: Observer<T, E>> Subject<T, E, O> for BaseSubject<T, E, O> {
    fn notify_if_unterminated(&self, event: Event<T, E>) {
        self.post(event);
    }
}

} // verus!
