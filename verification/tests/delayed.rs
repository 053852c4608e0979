use rx_rust::cancellable::Cancellable;
use rx_rust::observable::Observable;
use rx_rust::observer::event::{Event, Terminated};
use rx_rust::observer::Observer;
use rx_rust::operators::delay::{DelayObserver, DelayableObservable};
use rx_rust::scheduler::Scheduler;
use rx_rust::subject::base_subject::BaseSubject;
use rx_rust::subject::Subject;
use std::sync::{Arc, Mutex, RwLock};
use std::time::Duration;

/// Records everything it is handed, for assertions after the fact.
#[derive(Clone)]
struct Checker<T, E> {
    values: Arc<RwLock<Vec<T>>>,
    terminal: Arc<RwLock<Option<Terminated<E>>>>,
}

impl<T, E> Checker<T, E> {
    fn new() -> Self {
        Checker {
            values: Arc::new(RwLock::new(Vec::new())),
            terminal: Arc::new(RwLock::new(None)),
        }
    }

    fn is_values_matched(&self, expected: &[T]) -> bool
    where
        T: PartialEq,
    {
        *self.values.read().unwrap() == expected
    }

    fn is_unterminated(&self) -> bool {
        self.terminal.read().unwrap().is_none()
    }

    fn is_error(&self, expected: E) -> bool
    where
        E: PartialEq,
    {
        matches!(&*self.terminal.read().unwrap(), Some(Terminated::Error(e)) if *e == expected)
    }

    fn is_completed(&self) -> bool {
        matches!(*self.terminal.read().unwrap(), Some(Terminated::Completed))
    }

    fn is_unsubscribed(&self) -> bool {
        matches!(*self.terminal.read().unwrap(), Some(Terminated::Unsubscribed))
    }
}

impl<T, E> Observer<T, E> for Checker<T, E> {
    fn on_next(&mut self, value: T) {
        self.values.write().unwrap().push(value);
    }

    fn on_terminated(self, terminated: Terminated<E>) {
        let mut slot = self.terminal.write().unwrap();
        assert!(slot.is_none());
        *slot = Some(terminated);
    }
}

struct PendingTask {
    run: Box<dyn FnOnce() + Send>,
    alive: Arc<Mutex<bool>>,
}

/// A scheduler driven by hand: tasks wait in a queue until the test runs
/// them, and a cancelled task is dropped instead of run.
#[derive(Clone)]
struct TestScheduler {
    tasks: Arc<Mutex<Vec<PendingTask>>>,
}

impl TestScheduler {
    fn new() -> Self {
        TestScheduler { tasks: Arc::new(Mutex::new(Vec::new())) }
    }

    fn pending(&self) -> usize {
        self.tasks.lock().unwrap().len()
    }

    /// Runs every queued task that has not been cancelled, in order.
    fn run_all(&self) {
        loop {
            let task = {
                let mut tasks = self.tasks.lock().unwrap();
                if tasks.is_empty() {
                    break;
                }
                tasks.remove(0)
            };
            if *task.alive.lock().unwrap() {
                (task.run)();
            }
        }
    }
}

struct TestCancel {
    alive: Arc<Mutex<bool>>,
}

impl Cancellable for TestCancel {
    fn cancel(self) {
        *self.alive.lock().unwrap() = false;
    }
}

impl Scheduler for TestScheduler {
    type Cancel = TestCancel;

    fn schedule<F: FnOnce() + Send + 'static>(&self, task: F, _delay: Option<Duration>) -> TestCancel {
        let alive = Arc::new(Mutex::new(true));
        self.tasks.lock().unwrap().push(PendingTask {
            run: Box::new(task),
            alive: alive.clone(),
        });
        TestCancel { alive }
    }
}

type IntChecker = Checker<i32, String>;
type DelayedSubject = BaseSubject<i32, String, DelayObserver<i32, String, IntChecker, TestScheduler>>;

#[test]
fn delay_defers_values_and_completion() {
    let scheduler = TestScheduler::new();
    let subject: DelayedSubject = BaseSubject::new();
    let observable = subject.clone().delay(Duration::from_millis(50), scheduler.clone());
    let checker = Checker::new();
    let subscription = observable.subscribe(checker.clone());
    subject.notify_if_unterminated(Event::Next(1));
    subject.notify_if_unterminated(Event::Terminated(Terminated::Completed));
    // Nothing reaches the observer until the scheduler runs the tasks.
    assert!(checker.is_values_matched(&[]));
    assert!(checker.is_unterminated());
    scheduler.run_all();
    assert!(checker.is_values_matched(&[1]));
    assert!(checker.is_completed());
    _ = subscription;
}

#[test]
fn delay_lets_errors_bypass_the_delay() {
    let scheduler = TestScheduler::new();
    let subject: DelayedSubject = BaseSubject::new();
    let observable = subject.clone().delay(Duration::from_millis(50), scheduler.clone());
    let checker = Checker::new();
    let subscription = observable.subscribe(checker.clone());
    subject.notify_if_unterminated(Event::Next(1));
    subject.notify_if_unterminated(Event::Terminated(Terminated::Error("e".to_owned())));
    // The error is observed before any delayed task has run.
    assert!(checker.is_error("e".to_owned()));
    scheduler.run_all();
    // The delayed value finds the stream already over and is dropped.
    assert!(checker.is_values_matched(&[]));
    assert!(checker.is_error("e".to_owned()));
    _ = subscription;
}

#[test]
fn delay_unsubscribe_cancels_outstanding_tasks() {
    let scheduler = TestScheduler::new();
    let subject: DelayedSubject = BaseSubject::new();
    let observable = subject.clone().delay(Duration::from_millis(50), scheduler.clone());
    let checker = Checker::new();
    let subscription = observable.subscribe(checker.clone());
    subject.notify_if_unterminated(Event::Next(1));
    assert!(scheduler.pending() == 1);
    subscription.unsubscribe();
    assert!(checker.is_unsubscribed());
    scheduler.run_all();
    // The scheduled delivery was called off, not merely left to find an
    // empty slot.
    assert!(checker.is_values_matched(&[]));
    assert!(checker.is_unsubscribed());
}

#[test]
fn cancel_token_prevents_the_task_from_running() {
    let scheduler = TestScheduler::new();
    let ran = Arc::new(Mutex::new(false));
    let ran_cloned = ran.clone();
    let token = scheduler.schedule(
        move || {
            *ran_cloned.lock().unwrap() = true;
        },
        Some(Duration::from_millis(50)),
    );
    token.cancel();
    scheduler.run_all();
    assert!(!*ran.lock().unwrap());
}

#[test]
fn uncancelled_task_runs_once() {
    let scheduler = TestScheduler::new();
    let runs = Arc::new(Mutex::new(0u32));
    let runs_cloned = runs.clone();
    let _token = scheduler.schedule(
        move || {
            *runs_cloned.lock().unwrap() += 1;
        },
        None,
    );
    scheduler.run_all();
    scheduler.run_all();
    assert!(*runs.lock().unwrap() == 1);
}
