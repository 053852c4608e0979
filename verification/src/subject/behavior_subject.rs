use crate::delivery::{delivered, lemma_delivered_snoc};
use crate::disposable::Disposable;
use crate::observable::Observable;
use crate::observer::event::{Event, Terminated};
use crate::observer::Observer;
use crate::subject::registry::Registry;
use crate::subject::Subject;
use crate::subscription::Subscription;
use std::sync::Arc;
use vstd::prelude::*;
use vstd::rwlock::{RwLock, RwLockPredicate};

verus! {

/// The value the remembered-value cell must reflect after the accepted
/// events `s`: the payload of the last accepted value, or the seed while no
/// value has been accepted yet.
pub open spec fn latest_value<T, E>(seed: T, s: Seq<Event<T, E>>) -> T
    decreases s.len(),
{
    if s.len() == 0 {
        seed
    } else {
        match s.last() {
            Event::Next(v) => v,
            Event::Terminated(_) => latest_value(seed, s.drop_last()),
        }
    }
}

/// `b` could be the payload-wise clone of the terminal state `a`: the
/// variants agree and an error payload is a clone of the original.
pub open spec fn terminated_cloned<E: Clone>(a: Terminated<E>, b: Terminated<E>) -> bool {
    match (a, b) {
        (Terminated::Error(x), Terminated::Error(y)) => cloned::<E>(x, y),
        (Terminated::Unsubscribed, Terminated::Unsubscribed) => true,
        (Terminated::Completed, Terminated::Completed) => true,
        _ => false,
    }
}

/// Clones a terminal state variant by variant, so that the copy provably
/// keeps the variant and clones only the payload.
fn dup_terminated<E: Clone>(t: &Terminated<E>) -> (r: Terminated<E>)
    ensures
        terminated_cloned(*t, r),
{
    match t {
        Terminated::Error(error) => Terminated::Error(error.clone()),
        Terminated::Unsubscribed => Terminated::Unsubscribed,
        Terminated::Completed => Terminated::Completed,
    }
}

/// The state behind a behavior subject's lock: the multicast registry,
/// together with the remembered latest value and the remembered terminal
/// state, which the engine keeps in step with the registry's own latch.
pub struct BehaviorState<T, E, O> {
    /// The multicast hub.
    pub registry: Registry<T, E, O>,
    /// The most recently accepted value, or the seed.
    pub value: T,
    /// The terminal state the hub accepted, if it has.
    pub terminal: Option<Terminated<E>>,
    /// The seed the subject was created with.
    pub seed: Ghost<T>,
}

impl<T: Clone, E: Clone, O> BehaviorState<T, E, O> {
    /// The behavior subject's invariant: the registry is well formed, the
    /// value cell holds a clone of the latest accepted value, and the
    /// terminal cell is filled — with a clone of the accepted terminal state
    /// — exactly when the hub's latch has shut.
    pub open spec fn wf(self) -> bool {
        &&& self.registry.wf()
        &&& cloned::<T>(latest_value(self.seed@, delivered(self.registry.upstream@)), self.value)
        &&& match self.terminal {
            None => !self.registry.terminated,
            Some(t2) => {
                &&& self.registry.terminated
                &&& delivered(self.registry.upstream@).len() > 0
                &&& match delivered(self.registry.upstream@).last() {
                    Event::Terminated(t) => terminated_cloned(t, t2),
                    Event::Next(_) => false,
                }
            },
        }
    }

    /// A fresh state: the remembered value is the seed itself, no terminal
    /// state is recorded, and the registry is empty and open.
    pub fn new(value: T) -> (r: BehaviorState<T, E, O>)
        ensures
            r.wf(),
            r.value == value,
            r.seed@ == value,
            r.terminal is None,
            !r.registry.terminated,
            r.registry.entries@.len() == 0,
            r.registry.upstream@ == Seq::<Event<T, E>>::empty(),
    {
        BehaviorState { seed: Ghost(value), registry: Registry::new(), terminal: None, value }
    }
}

impl<T: Clone, E: Clone, O: Observer<T, E>> BehaviorState<T, E, O> {
    /// The replay step of a live hub, in one motion under the lock: the
    /// observer is synchronously sent a clone of the remembered value — a
    /// clone of the latest accepted value, by the invariant — and is then
    /// registered with that snapshot as the start of its log, so nothing is
    /// lost or duplicated between the snapshot and the live events that
    /// follow.  Registration is refused only when the key space is spent.
    fn catch_up_and_register(&mut self, observer: O) -> (r: Option<u64>)
        requires
            old(self).wf(),
            old(self).terminal is None,
        ensures
            final(self).wf(),
            final(self).value == old(self).value,
            final(self).terminal == old(self).terminal,
            final(self).seed == old(self).seed,
            final(self).registry.upstream == old(self).registry.upstream,
            final(self).registry.terminated == old(self).registry.terminated,
            match r {
                Some(key) => {
                    &&& key == old(self).registry.next_key
                    &&& final(self).registry.entries@.len() == old(
                        self,
                    ).registry.entries@.len() + 1
                    &&& final(self).registry.entries@.subrange(
                        0,
                        old(self).registry.entries@.len() as int,
                    ) == old(self).registry.entries@
                    &&& ({
                        let added = final(self).registry.entries@.last();
                        &&& added.key == key
                        &&& added.live()
                        &&& added.offered@.len() == 1
                        &&& match added.offered@[0] {
                            Event::Next(w) => cloned::<T>(old(self).value, w),
                            Event::Terminated(_) => false,
                        }
                    })
                },
                None => {
                    &&& old(self).registry.next_key == u64::MAX
                    &&& final(self).registry.entries@ == old(self).registry.entries@
                },
            },
    {
        let mut observer = observer;
        let snapshot = self.value.clone();
        let ghost sent = snapshot;
        observer.on_next(snapshot);
        let ghost caught_up: Seq<Event<T, E>> = seq![Event::Next(sent)];
        if self.registry.next_key < u64::MAX {
            let key = self.registry.add(observer, Ghost(caught_up));
            Some(key)
        } else {
            None
        }
    }
}

/// The lock invariant of a behavior subject: whatever goes into the lock is
/// a well-formed behavior state.
pub struct BehaviorInv;

impl<T: Clone, E: Clone, O> RwLockPredicate<BehaviorState<T, E, O>> for BehaviorInv {
    open spec fn inv(self, v: BehaviorState<T, E, O>) -> bool {
        v.wf()
    }
}

/// A multicast hub that remembers the most recent value and the terminal
/// state: a new subscriber is first sent the remembered value — or, after
/// termination, the remembered terminal state — before it sees live events.
/// Every clone is a handle on the same state.  The snapshot is delivered
/// under the state lock, in the same motion as the registration: that is
/// what makes the catch-up boundary exact — no event is lost or duplicated
/// between the snapshot and the live stream — at the price that an observer
/// must not call back into this subject while being caught up.
pub struct BehaviorSubject<T: Clone, E: Clone, O> {
    state: Arc<RwLock<BehaviorState<T, E, O>, BehaviorInv>>,
}

impl<T: Clone, E: Clone, O> Clone for BehaviorSubject<T, E, O> {
    /// The clone is another handle on the very same state.
    fn clone(&self) -> (res: Self)
        ensures
            res == *self,
    {
        BehaviorSubject { state: crate::shared::clone_arc(&self.state) }
    }
}

impl<T: Clone, E: Clone, O> BehaviorSubject<T, E, O> {
    /// A hub seeded with `value`: until an event is accepted, `value` is
    /// what a new subscriber is caught up with.
    pub fn new(value: T) -> BehaviorSubject<T, E, O> {
        BehaviorSubject {
            state: Arc::new(RwLock::new(BehaviorState::new(value), Ghost(BehaviorInv))),
        }
    }

    /// A clone of the most recently accepted value (the seed, before any).
    pub fn get_value(&self) -> T {
        let handle = self.state.acquire_read();
        let value = handle.borrow().value.clone();
        handle.release_read();
        value
    }

    /// A clone of the remembered terminal state, if the hub has terminated.
    pub fn get_terminated(&self) -> Option<Terminated<E>> {
        let handle = self.state.acquire_read();
        let terminal = match &handle.borrow().terminal {
            Some(t) => Some(dup_terminated(t)),
            None => None,
        };
        handle.release_read();
        terminal
    }
}

impl<T: Clone + Default, E: Clone, O> Default for BehaviorSubject<T, E, O> {
    fn default() -> BehaviorSubject<T, E, O> {
        BehaviorSubject::new(T::default())
    }
}

impl<T: Clone, E: Clone, O: Observer<T, E>> BehaviorSubject<T, E, O> {
    /// Accepts one upstream event: first the remembered cells are brought up
    /// to date — so that the new value is in place before any observer sees
    /// the event — and then the registry fans it out.  An event arriving
    /// after termination is dropped by the registry's latch and changes no
    /// cell.
    fn post(&self, event: Event<T, E>) {
        let (mut st, handle) = self.state.acquire_write();
        let ghost old_up = st.registry.upstream@;
        let ghost was_terminated = st.registry.terminated;
        let ghost d0 = delivered(old_up);
        proof {
            lemma_delivered_snoc(old_up, event);
        }
        if !st.registry.terminated {
            match &event {
                Event::Next(v) => {
                    st.value = v.clone();
                },
                Event::Terminated(t) => {
                    st.terminal = Some(dup_terminated(t));
                },
            }
        }
        st.registry.publish(event);
        proof {
            let up = st.registry.upstream@;
            assert(up == old_up.push(event));
            if was_terminated {
                assert(delivered(up) == d0);
            } else {
                assert(delivered(up) == d0.push(event));
                assert(delivered(up).last() == event);
                assert(delivered(up).drop_last() =~= d0);
            }
        }
        handle.release_write(st);
    }
}

/// The cleanup a behavior-subject subscription runs: it takes the
/// registration out of the registry and, when the observer has not yet seen
/// a terminal event, sends it the synthetic `Unsubscribed` signal — exactly
/// once, outside the lock.
pub struct BehaviorUnregister<T: Clone, E: Clone, O> {
    subject: BehaviorSubject<T, E, O>,
    key: u64,
}

impl<T: Clone, E: Clone, O: Observer<T, E>> Disposable for BehaviorUnregister<T, E, O> {
    open spec fn wf(self) -> bool {
        true
    }

    fn dispose(self) {
        let BehaviorUnregister { subject, key } = self;
        let (mut st, handle) = subject.state.acquire_write();
        let removed = st.registry.remove(key);
        handle.release_write(st);
        match removed {
            Some(observer) => observer.on_terminated(Terminated::Unsubscribed),
            None => {},
        }
    }
}

impl<T: Clone, E: Clone, O: Observer<T, E>> Observable<T, E, O> for BehaviorSubject<T, E, O> {
    type Unsub = Subscription<BehaviorUnregister<T, E, O>>;

    /// Catches the observer up before registering it: a live hub sends it a
    /// clone of the remembered value and registers it with that snapshot as
    /// the start of its delivery log (see
    /// [`BehaviorState::catch_up_and_register`]); a terminated hub sends it
    /// the remembered terminal state instead and registers nothing.
    fn subscribe(self, observer: O) -> (r: Subscription<BehaviorUnregister<T, E, O>>) {
        let observer = observer;
        let (mut st, handle) = self.state.acquire_write();
        if st.terminal.is_some() {
            // The hub is over: catch the observer up with its end instead of
            // registering it.
            let t = match &st.terminal {
                Some(t) => dup_terminated(t),
                None => Terminated::Completed,
            };
            handle.release_write(st);
            observer.on_terminated(t);
            Subscription::detached()
        } else {
            let registered = st.catch_up_and_register(observer);
            handle.release_write(st);
            match registered {
                Some(key) => Subscription::from_disposable(
                    BehaviorUnregister { subject: self, key },
                ),
                None => Subscription::detached(),
            }
        }
    }
}

impl<T: Clone, E: Clone, O: Observer<T, E>> Observer<T, E> for BehaviorSubject<T, E, O> {
    fn on_next(&mut self, value: T) {
        self.post(Event::Next(value));
    }

    fn on_terminated(self, terminated: Terminated<E>) {
        self.post(Event::Terminated(terminated));
    }
}

impl<T: Clone, E: Clone, O: Observer<T, E>> Subject<T, E, O> for BehaviorSubject<T, E, O> {
    fn notify_if_unterminated(&self, event: Event<T, E>) {
        self.post(event);
    }
}

} // verus!
