use rx_rust::observable::Observable;
use rx_rust::observer::event::Terminated;
use rx_rust::observer::{Observer, Terminal};
use rx_rust::operators::create::Create;
use rx_rust::operators::just::Just;
use rx_rust::operators::map::MappableObservable;
use rx_rust::subscriber::Subscriber;
use rx_rust::subscription::Subscription;
use std::sync::{Arc, RwLock};

/// Records everything it is handed, for assertions after the fact.
#[derive(Clone)]
struct Checker<T, E> {
    values: Arc<RwLock<Vec<T>>>,
    terminal: Arc<RwLock<Option<Terminated<E>>>>,
}

impl<T, E> Checker<T, E> {
    fn new() -> Self {
        Checker {
            values: Arc::new(RwLock::new(Vec::new())),
            terminal: Arc::new(RwLock::new(None)),
        }
    }

    fn is_values_matched(&self, expected: &[T]) -> bool
    where
        T: PartialEq,
    {
        *self.values.read().unwrap() == expected
    }

    fn is_unterminated(&self) -> bool {
        self.terminal.read().unwrap().is_none()
    }

    fn is_error(&self, expected: E) -> bool
    where
        E: PartialEq,
    {
        matches!(&*self.terminal.read().unwrap(), Some(Terminated::Error(e)) if *e == expected)
    }

    fn is_completed(&self) -> bool {
        matches!(*self.terminal.read().unwrap(), Some(Terminated::Completed))
    }
}

impl<T, E> Observer<T, E> for Checker<T, E> {
    fn on_next(&mut self, value: T) {
        self.values.write().unwrap().push(value);
    }

    fn on_terminated(self, terminated: Terminated<E>) {
        let mut slot = self.terminal.write().unwrap();
        assert!(slot.is_none());
        *slot = Some(terminated);
    }
}

#[test]
fn create_test_completed() {
    let observable = Create::new(|mut observer| {
        observer.on_next(333);
        observer.on_terminal(Terminal::<String>::Completed);
        Subscriber::new_empty()
    });
    let checker = Checker::new();
    observable.subscribe(checker.clone());
    assert!(checker.is_values_matched(&[333]));
    assert!(checker.is_completed());
}

#[test]
fn create_test_error() {
    let observable = Create::new(|mut observer| {
        observer.on_next(33);
        observer.on_next(44);
        observer.on_terminal(Terminal::Error("error"));
        Subscriber::new_empty()
    });

    let checker = Checker::new();
    observable.subscribe(checker.clone());
    assert!(checker.is_values_matched(&[33, 44]));
    assert!(checker.is_error("error"));
}

#[test]
fn create_test_unterminated() {
    let observable = Create::new(|mut observer| {
        observer.on_next(1);
        Subscriber::new_empty()
    });

    let checker: Checker<i32, String> = Checker::new();
    let subscriber = observable.subscribe(checker.clone());
    assert!(checker.is_values_matched(&[1]));
    assert!(checker.is_unterminated());
    _ = subscriber; // keep the subscriber alive
}

#[test]
fn create_test_multiple_subscribe() {
    let observable = Create::new(|mut observer| {
        observer.on_next(333);
        observer.on_terminal(Terminal::<String>::Completed);
        Subscriber::new_empty()
    });

    let checker = Checker::new();
    observable.clone().subscribe(checker.clone());
    assert!(checker.is_values_matched(&[333]));
    assert!(checker.is_completed());

    let checker = Checker::new();
    observable.subscribe(checker.clone());
    assert!(checker.is_values_matched(&[333]));
    assert!(checker.is_completed());
}

#[test]
fn map_test_completed() {
    let observable = Just::new(333);
    let observable = observable.map(|value: i32| value.to_string());
    let checker = Checker::new();
    observable.subscribe(checker.clone());
    assert!(checker.is_values_matched(&["333".to_owned()]));
    assert!(checker.is_completed());
}

#[test]
fn map_test_error() {
    let observable = Create::new(|mut observer| {
        observer.on_next(333);
        observer.on_terminal(Terminal::Error("error".to_owned()));
        Subscription::new_empty()
    });
    let observable = observable.map(|value: i32| value.to_string());
    let checker = Checker::new();
    observable.subscribe(checker.clone());
    assert!(checker.is_values_matched(&["333".to_owned()]));
    assert!(checker.is_error("error".to_owned()));
}

#[test]
fn map_test_unterminated() {
    let observable = Create::new(|mut observer| {
        observer.on_next(333);
        observer.on_next(444);
        Subscription::new_empty()
    });
    let observable = observable.map(|value: i32| value.to_string());
    let checker: Checker<String, String> = Checker::new();
    let subscription = observable.subscribe(checker.clone());
    assert!(checker.is_values_matched(&["333".to_owned(), "444".to_owned()]));
    assert!(checker.is_unterminated());
    _ = subscription; // keep the subscription alive
}

#[test]
fn map_test_multiple_subscribe() {
    let observable = Just::new(333);
    let observable = observable.clone().map(|value: i32| value.to_string());

    let checker = Checker::new();
    observable.clone().subscribe(checker.clone());
    assert!(checker.is_values_matched(&["333".to_owned()]));
    assert!(checker.is_completed());

    let checker = Checker::new();
    observable.subscribe(checker.clone());
    assert!(checker.is_values_matched(&["333".to_owned()]));
    assert!(checker.is_completed());
}

#[test]
fn map_test_multiple_operate() {
    let observable = Just::new(333)
        .map(|value: i32| value.to_string())
        .map(|value: String| value + "?");
    let checker = Checker::new();
    observable.subscribe(checker.clone());
    assert!(checker.is_values_matched(&["333?".to_owned()]));
    assert!(checker.is_completed());
}
