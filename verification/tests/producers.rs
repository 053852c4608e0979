use rx_rust::observable::error::{error, error_cloned};
use rx_rust::observable::just::{just, just_cloned};
use rx_rust::observable::Observable;
use rx_rust::observer::event::Terminated;
use rx_rust::observer::Observer;
use rx_rust::operators::just::Just;
use rx_rust::operators::throw::Throw;
use std::convert::Infallible;
use std::sync::{Arc, RwLock};

/// Records everything it is handed, for assertions after the fact.
#[derive(Clone)]
struct Checker<T, E> {
    values: Arc<RwLock<Vec<T>>>,
    terminal: Arc<RwLock<Option<Terminated<E>>>>,
}

impl<T, E> Checker<T, E> {
    fn new() -> Self {
        Checker {
            values: Arc::new(RwLock::new(Vec::new())),
            terminal: Arc::new(RwLock::new(None)),
        }
    }

    fn is_values_matched(&self, expected: &[T]) -> bool
    where
        T: PartialEq,
    {
        *self.values.read().unwrap() == expected
    }

    fn is_unterminated(&self) -> bool {
        self.terminal.read().unwrap().is_none()
    }

    fn is_error(&self, expected: E) -> bool
    where
        E: PartialEq,
    {
        matches!(&*self.terminal.read().unwrap(), Some(Terminated::Error(e)) if *e == expected)
    }

    fn is_completed(&self) -> bool {
        matches!(*self.terminal.read().unwrap(), Some(Terminated::Completed))
    }
}

impl<T, E> Observer<T, E> for Checker<T, E> {
    fn on_next(&mut self, value: T) {
        self.values.write().unwrap().push(value);
    }

    fn on_terminated(self, terminated: Terminated<E>) {
        let mut slot = self.terminal.write().unwrap();
        assert!(slot.is_none());
        *slot = Some(terminated);
    }
}

#[test]
fn just_test_ref() {
    let value = 123;
    let checker: Checker<i32, Infallible> = Checker::new();
    let observable = just(value);
    observable.subscribe(checker.clone());
    assert!(checker.is_values_matched(&[value]));
    assert!(checker.is_completed());
}

#[test]
fn just_test_cloned() {
    let value = 123;
    let checker: Checker<i32, Infallible> = Checker::new();
    let observable = just_cloned(value);
    observable.subscribe(checker.clone());
    assert!(checker.is_values_matched(&[value]));
    assert!(checker.is_completed());
}

#[test]
fn just_test_multiple_subscribe() {
    let value = 123;
    let observable = just_cloned(value);
    let checker: Checker<i32, Infallible> = Checker::new();
    observable.clone().subscribe(checker.clone());
    assert!(checker.is_values_matched(&[value]));
    assert!(checker.is_completed());
    let checker: Checker<i32, Infallible> = Checker::new();
    observable.subscribe(checker.clone());
    assert!(checker.is_values_matched(&[value]));
    assert!(checker.is_completed());
}

#[test]
fn error_test_ref() {
    let value = "error";
    let checker: Checker<Infallible, &str> = Checker::new();
    let observable = error(value);
    observable.subscribe(checker.clone());
    assert!(checker.is_values_matched(&[]));
    assert!(checker.is_error(value));
}

#[test]
fn error_test_cloned() {
    let value = "error";
    let checker: Checker<Infallible, &str> = Checker::new();
    let observable = error_cloned(value);
    observable.subscribe(checker.clone());
    assert!(checker.is_values_matched(&[]));
    assert!(checker.is_error(value));
}

#[test]
fn error_test_multiple_subscribe() {
    let value = "error";
    let observable = error_cloned(value);
    let checker: Checker<Infallible, &str> = Checker::new();
    observable.clone().subscribe(checker.clone());
    assert!(checker.is_values_matched(&[]));
    assert!(checker.is_error(value));
    let checker: Checker<Infallible, &str> = Checker::new();
    observable.subscribe(checker.clone());
    assert!(checker.is_values_matched(&[]));
    assert!(checker.is_error(value));
}

#[test]
fn just_test_completed() {
    let observable = Just::new(333);
    let checker: Checker<i32, Infallible> = Checker::new();
    observable.subscribe(checker.clone());
    assert!(checker.is_values_matched(&[333]));
    assert!(checker.is_completed());
}

#[test]
fn test_multiple_subscribe() {
    let observable = Just::new(333);

    let checker: Checker<i32, Infallible> = Checker::new();
    observable.clone().subscribe(checker.clone());
    assert!(checker.is_values_matched(&[333]));
    assert!(checker.is_completed());

    let checker: Checker<i32, Infallible> = Checker::new();
    observable.subscribe(checker.clone());
    assert!(checker.is_values_matched(&[333]));
    assert!(checker.is_completed());
}

#[test]
fn test_error() {
    let observable = Throw::new(333);
    let checker: Checker<Infallible, i32> = Checker::new();
    observable.subscribe(checker.clone());
    assert!(checker.is_values_matched(&[]));
    assert!(checker.is_error(333));
}

#[test]
fn throw_test_multiple_subscribe() {
    let observable = Throw::new("My error");

    let checker: Checker<Infallible, &str> = Checker::new();
    observable.clone().subscribe(checker.clone());
    assert!(checker.is_values_matched(&[]));
    assert!(checker.is_error("My error"));

    let checker: Checker<Infallible, &str> = Checker::new();
    observable.subscribe(checker.clone());
    assert!(checker.is_values_matched(&[]));
    assert!(checker.is_error("My error"));
}

#[test]
fn just_leaves_the_subscriber_unterminated_never() {
    // A producer that completes leaves no way to observe a value afterwards.
    let checker: Checker<i32, Infallible> = Checker::new();
    Just::new(7).subscribe(checker.clone());
    assert!(!checker.is_unterminated());
}
