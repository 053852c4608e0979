use rx_rust::observable::observable_cloned::ObservableCloned;
use rx_rust::observable::observable_into_ext::ObservableIntoExt;
use rx_rust::observable::observable_subscribe_cloned_ext::ObservableSubscribeClonedExt;
use rx_rust::observable::observable_subscribe_cloned_ext::ObservableSubscribeClonedNextExt;
use rx_rust::observable::observable_subscribe_ext::ObservableSubscribeExt;
use rx_rust::observable::Observable;
use rx_rust::observer::event::{Event, Terminated};
use rx_rust::observer::{Observer, Terminal};
use rx_rust::operators::create::Create;
use rx_rust::operators::just::Just;
use rx_rust::subscription::Subscription;
use std::convert::Infallible;
use std::sync::{Arc, RwLock};

/// Records everything it is handed, for assertions after the fact.
#[derive(Clone)]
struct Checker<T, E> {
    values: Arc<RwLock<Vec<T>>>,
    terminal: Arc<RwLock<Option<Terminated<E>>>>,
}

impl<T, E> Checker<T, E> {
    fn new() -> Self {
        Checker {
            values: Arc::new(RwLock::new(Vec::new())),
            terminal: Arc::new(RwLock::new(None)),
        }
    }

    /// Records one event through a shared reference, for use in callbacks.
    fn on_event(&self, event: Event<T, E>) {
        match event {
            Event::Next(value) => self.values.write().unwrap().push(value),
            Event::Terminated(terminated) => {
                let mut slot = self.terminal.write().unwrap();
                assert!(slot.is_none());
                *slot = Some(terminated);
            }
        }
    }

    fn is_values_matched(&self, expected: &[T]) -> bool
    where
        T: PartialEq,
    {
        *self.values.read().unwrap() == expected
    }

    fn is_unterminated(&self) -> bool {
        self.terminal.read().unwrap().is_none()
    }

    fn is_completed(&self) -> bool {
        matches!(*self.terminal.read().unwrap(), Some(Terminated::Completed))
    }
}

impl<T, E> Observer<T, E> for Checker<T, E> {
    fn on_next(&mut self, value: T) {
        self.values.write().unwrap().push(value);
    }

    fn on_terminated(self, terminated: Terminated<E>) {
        self.on_event(Event::Terminated(terminated));
    }
}

#[test]
fn test_subscribe_cloned() {
    let observable = Just::new(123);
    let checker: Checker<i32, Infallible> = Checker::new();
    observable.subscribe_cloned(checker.clone());
    assert!(checker.is_values_matched(&[123]));
    assert!(checker.is_completed());
}

#[test]
fn test_normal() {
    let observable = Create::new(|mut observer| {
        observer.on_next(333);
        observer.on_terminal(Terminal::<String>::Completed);
        Subscription::new_empty()
    });
    let observable = observable.into_observable();
    let checker: Checker<i32, String> = Checker::new();
    observable.subscribe(checker.clone());
    assert!(checker.is_values_matched(&[333]));
    assert!(checker.is_completed());
}

#[test]
fn test_multiple() {
    let observable = Create::new(|mut observer| {
        observer.on_next(333);
        observer.on_terminal(Terminal::<String>::Completed);
        Subscription::new_empty()
    });
    let observable = observable.into_observable();
    let observable = observable.into_observable();
    let observable = observable.into_observable();
    let checker: Checker<i32, String> = Checker::new();
    observable.subscribe(checker.clone());
    assert!(checker.is_values_matched(&[333]));
    assert!(checker.is_completed());
}

#[test]
fn test_on_event() {
    let observable = Just::new(123);
    let checker: Checker<i32, Infallible> = Checker::new();
    let checker_cloned = checker.clone();
    observable.subscribe_cloned_on_event(move |event| {
        checker_cloned.on_event(event);
    });
    assert!(checker.is_values_matched(&[123]));
    assert!(checker.is_completed());
}

#[test]
fn test_on_next() {
    let observable = Just::new(123);
    let checker: Checker<i32, Infallible> = Checker::new();
    let checker_cloned = checker.clone();
    observable.subscribe_cloned_on_next(move |value| {
        checker_cloned.on_event(Event::Next(value));
    });
    assert!(checker.is_values_matched(&[123]));
    assert!(checker.is_unterminated());
}

#[test]
fn test_subscribe_on() {
    let observable = Just::new(123);
    let checker: Checker<i32, Infallible> = Checker::new();
    let checker_cloned_1 = checker.clone();
    let checker_cloned_2 = checker.clone();
    observable.subscribe_on(
        move |value| {
            checker_cloned_1.on_event(Event::Next(value));
        },
        move |terminated| {
            checker_cloned_2.on_event(Event::Terminated(terminated));
        },
    );
    assert!(checker.is_values_matched(&[123]));
    assert!(checker.is_completed());
}
