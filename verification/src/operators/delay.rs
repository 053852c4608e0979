use crate::cancellable::Cancellable;
use crate::delivery::{has_terminal, lemma_has_terminal_snoc, lemma_wf_log_snoc, wf_log};
use crate::disposable::Disposable;
use crate::observable::Observable;
use crate::observer::event::{Event, Terminated};
use crate::observer::Observer;
use crate::scheduler::Scheduler;
use crate::subscription::Subscription;
use core::time::Duration;
use std::sync::Arc;
use vstd::prelude::*;
use vstd::rwlock::{RwLock, RwLockPredicate};

verus! {

/// The shared slot a [`Delay`] delivers through: the downstream observer,
/// held until its stream ends, together with the log of events handed to it.
/// The slot is a delivery latch of its own — the observer is present exactly
/// until a terminal event went through, and the log stays well formed, so an
/// observer behind a delay also sees at most one terminal event, last.
pub struct DelaySlot<T, E, OR> {
    /// The downstream observer; taken when the latch shuts.
    pub observer: Option<OR>,
    /// Every event handed to the observer, the shutting terminal included.
    pub log: Ghost<Seq<Event<T, E>>>,
}

impl<T, E, OR> DelaySlot<T, E, OR> {
    /// The latch discipline, mirrored from the subjects' registry entries.
    pub open spec fn wf(self) -> bool {
        &&& (self.observer is Some <==> !has_terminal(self.log@))
        &&& wf_log(self.log@)
    }
}

/// The lock invariant of a delay's observer slot: whatever goes into the
/// lock obeys the slot's latch discipline.
pub struct SlotInv;

impl<T, E, OR> RwLockPredicate<DelaySlot<T, E, OR>> for SlotInv {
    open spec fn inv(self, v: DelaySlot<T, E, OR>) -> bool {
        v.wf()
    }
}

/// The lock invariant of the collection of outstanding task handles: every
/// handle in it is fit to invoke.
pub struct TokensInv;

impl<C: Cancellable> RwLockPredicate<Vec<C>> for TokensInv {
    open spec fn inv(self, v: Vec<C>) -> bool {
        forall|i: int| 0 <= i < v@.len() ==> (#[trigger] v@[i]).wf()
    }
}

/// An observable that hands values and completion from a source observable
/// to a scheduler, delaying them by a fixed duration, while errors bypass
/// the delay and are delivered at once — deferring an error could mask
/// time-sensitive failure handling.
#[derive(Clone)]
pub struct Delay<OE, S> {
    source: OE,
    delay: Duration,
    scheduler: Arc<S>,
}

impl<OE, S> Delay<OE, S> {
    /// The source this operator wraps.
    pub closed spec fn source_of(self) -> OE {
        self.source
    }

    /// The delay values and completion ride.
    pub closed spec fn delay_of(self) -> Duration {
        self.delay
    }

    /// The scheduler that times the deferred deliveries.
    pub closed spec fn scheduler_of(self) -> S {
        *self.scheduler
    }

    /// Wraps `source` so that values and completion reach the observer only
    /// after `delay`, timed by `scheduler`.
    pub fn new(source: OE, delay: Duration, scheduler: S) -> (r: Delay<OE, S>)
        ensures
            r.source_of() == source,
            r.delay_of() == delay,
            r.scheduler_of() == scheduler,
    {
        Delay { source, delay, scheduler: Arc::new(scheduler) }
    }
}

/// Whether a terminal state is delivered at once instead of riding the
/// delay: completion is deferred like a value, while an error — or a
/// synthesized cancellation — must never be artificially held back, since
/// that could mask time-sensitive failure handling.
fn bypasses_delay<E>(terminated: &Terminated<E>) -> (r: bool)
    ensures
        r == !(*terminated matches Terminated::Completed),
{
    !matches!(terminated, Terminated::Completed)
}

/// Hands one value through a delay slot: the observer receives it only if
/// its stream has not ended, and the slot's log records the delivery.
fn deliver_next<T, E, OR: Observer<T, E>>(
    slot: &Arc<RwLock<DelaySlot<T, E, OR>, SlotInv>>,
    value: T,
) {
    let ghost sent = value;
    let (taken, handle) = slot.acquire_write();
    let DelaySlot { observer, log } = taken;
    match observer {
        Some(mut observer) => {
            proof {
                lemma_has_terminal_snoc(log@, Event::<T, E>::Next(sent));
                lemma_wf_log_snoc(log@, Event::<T, E>::Next(sent));
            }
            observer.on_next(value);
            handle.release_write(
                DelaySlot { observer: Some(observer), log: Ghost(log@.push(Event::Next(sent))) },
            );
        },
        None => {
            handle.release_write(DelaySlot { observer: None, log });
        },
    }
}

/// Hands one terminal state through a delay slot, shutting its latch: the
/// observer — if its stream had not already ended — is taken out, the log
/// records the end, and the terminal state is delivered outside the lock.
fn deliver_terminated<T, E, OR: Observer<T, E>>(
    slot: &Arc<RwLock<DelaySlot<T, E, OR>, SlotInv>>,
    terminated: Terminated<E>,
) {
    let ghost sent = terminated;
    let (taken, handle) = slot.acquire_write();
    let DelaySlot { observer, log } = taken;
    match observer {
        Some(observer) => {
            proof {
                lemma_has_terminal_snoc(log@, Event::<T, E>::Terminated(sent));
                lemma_wf_log_snoc(log@, Event::<T, E>::Terminated(sent));
            }
            handle.release_write(
                DelaySlot { observer: None, log: Ghost(log@.push(Event::Terminated(sent))) },
            );
            observer.on_terminated(terminated);
        },
        None => {
            handle.release_write(DelaySlot { observer: None, log });
        },
    }
}

/// The observer a [`Delay`] interposes between the source and the real
/// downstream observer.  The downstream observer lives in a shared
/// [`DelaySlot`]: scheduled tasks deliver through it, and disposal shuts it
/// for good.  Every scheduled task's cancel handle is kept in a shared
/// collection so that disposal can call the outstanding ones off.
pub struct DelayObserver<T, E, OR, S: Scheduler> {
    observer: Arc<RwLock<DelaySlot<T, E, OR>, SlotInv>>,
    tokens: Arc<RwLock<Vec<S::Cancel>, TokensInv>>,
    delay: Duration,
    scheduler: Arc<S>,
}

impl<T, E, OR, S: Scheduler> DelayObserver<T, E, OR, S> {
    /// Remembers a scheduled task's cancel handle for disposal to find.
    fn remember_token(&self, token: S::Cancel)
        requires
            token.wf(),
    {
        let (mut tokens, handle) = self.tokens.acquire_write();
        tokens.push(token);
        handle.release_write(tokens);
    }
}

impl<T, E, OR, S> Observer<T, E> for DelayObserver<T, E, OR, S> where
    T: Send + 'static,
    E: Send + 'static,
    OR: Observer<T, E> + Send + Sync + 'static,
    S: Scheduler,
 {
    /// Hands the value to the scheduler; the real delivery happens when the
    /// scheduled task runs, unless the slot has shut by then.
    fn on_next(&mut self, value: T) {
        let slot = crate::shared::clone_arc(&self.observer);
        let token = self.scheduler.schedule(
            move || {
                deliver_next(&slot, value);
            },
            Some(self.delay),
        );
        self.remember_token(token);
    }

    /// Completion is delayed like a value; a terminal state for which
    /// [`bypasses_delay`] holds is delivered at once.
    fn on_terminated(self, terminated: Terminated<E>) {
        if bypasses_delay(&terminated) {
            deliver_terminated(&self.observer, terminated);
        } else {
            let slot = crate::shared::clone_arc(&self.observer);
            let token = self.scheduler.schedule(
                move || {
                    deliver_terminated(&slot, terminated);
                },
                Some(self.delay),
            );
            self.remember_token(token);
        }
    }
}

/// The cleanup a [`Delay`] subscription runs: it calls off every scheduled
/// task that has not run, shuts the observer slot — synthesizing the
/// `Unsubscribed` signal if the observer was still waiting — and disposes
/// the subscription to the source.
pub struct DelayTeardown<T, E, OR: Observer<T, E>, S: Scheduler, U: Disposable> {
    observer: Arc<RwLock<DelaySlot<T, E, OR>, SlotInv>>,
    tokens: Arc<RwLock<Vec<S::Cancel>, TokensInv>>,
    inner: U,
}

impl<T, E, OR: Observer<T, E>, S: Scheduler, U: Disposable> Disposable for DelayTeardown<
    T,
    E,
    OR,
    S,
    U,
> {
    closed spec fn wf(self) -> bool {
        self.inner.wf()
    }

    fn dispose(self) {
        let DelayTeardown { observer, tokens, inner } = self;
        let (mut pending, handle) = tokens.acquire_write();
        handle.release_write(Vec::new());
        loop
            invariant
                forall|i: int| 0 <= i < pending@.len() ==> (#[trigger] pending@[i]).wf(),
            decreases pending@.len(),
        {
            let token = pending.pop();
            match token {
                Some(token) => token.cancel(),
                None => { break ; },
            }
        }
        deliver_terminated(&observer, Terminated::Unsubscribed);
        inner.dispose();
    }
}

impl<T, E, OE, OR, S> Observable<T, E, OR> for Delay<OE, S> where
    T: Send + 'static,
    E: Send + 'static,
    OR: Observer<T, E> + Send + Sync + 'static,
    OE: Observable<T, E, DelayObserver<T, E, OR, S>>,
    S: Scheduler,
 {
    type Unsub = Subscription<DelayTeardown<T, E, OR, S, OE::Unsub>>;

    /// Interposes the delaying observer and combines the source's handle
    /// with the delay-specific teardown; the handle always carries that
    /// teardown — it is never a spent one.
    fn subscribe(self, observer: OR) -> (r: Subscription<
        DelayTeardown<T, E, OR, S, OE::Unsub>,
    >)
        ensures
            r.pending() is Some,
    {
        let slot = Arc::new(
            RwLock::new(
                DelaySlot { observer: Some(observer), log: Ghost(Seq::empty()) },
                Ghost(SlotInv),
            ),
        );
        let tokens = Arc::new(RwLock::new(Vec::new(), Ghost(TokensInv)));
        let internal = DelayObserver {
            observer: crate::shared::clone_arc(&slot),
            tokens: crate::shared::clone_arc(&tokens),
            delay: self.delay,
            scheduler: self.scheduler,
        };
        let inner = self.source.subscribe(internal);
        Subscription::from_disposable(DelayTeardown { observer: slot, tokens, inner })
    }
}

/// Lets `delay` be written on any observable.
pub trait DelayableObservable<T, E, OR, S> where
    OR: Observer<T, E>,
    S: Scheduler,
    Self: core::marker::Sized,
 {
    /// The observable `delay` returns.
    type Delayed: Observable<T, E, OR>;

    /// Delays values and completion by `delay` on `scheduler`; errors bypass
    /// the delay.
    fn delay(self, delay: Duration, scheduler: S) -> Self::Delayed;
}

impl<T, E, OR, S, OE> DelayableObservable<T, E, OR, S> for OE where
    T: Send + 'static,
    E: Send + 'static,
    OR: Observer<T, E> + Send + Sync + 'static,
    OE: Observable<T, E, DelayObserver<T, E, OR, S>>,
    S: Scheduler,
 {
    type Delayed = Delay<OE, S>;

    fn delay(self, delay: Duration, scheduler: S) -> (r: Delay<OE, S>) {
        Delay::new(self, delay, scheduler)
    }
}

} // verus!
