use rx_rust::cancellable::anonymous_cancellable::AnonymousCancellable;
use rx_rust::cancellable::Cancellable;
use rx_rust::disposable::anonymous_disposable::AnonymousDisposable;
use rx_rust::disposable::Disposable;
use rx_rust::subscriber::Subscriber;
use rx_rust::subscription::Subscription;
use rx_rust::utils::disposal::Disposal;
use std::sync::{Arc, Mutex, RwLock};

#[test]
fn test_cancel() {
    let mut cancelled = false;
    let cancellable = AnonymousCancellable::new(|| {
        assert!(!cancelled);
        cancelled = true;
    });
    cancellable.cancel();
    assert!(cancelled);
}

#[test]
fn anonymous_cancellable_test_dropped() {
    let mut cancelled = false;
    {
        AnonymousCancellable::new(|| {
            assert!(!cancelled);
            cancelled = true;
        });
    }
    assert!(cancelled);
}

#[test]
fn test_dispose() {
    let mut disposed = false;
    let disposable = AnonymousDisposable::new(|| {
        assert!(!disposed);
        disposed = true;
    });
    disposable.dispose();
    assert!(disposed);
}

#[test]
fn anonymous_disposable_test_dropped() {
    let mut disposed = false;
    {
        AnonymousDisposable::new(|| {
            assert!(!disposed);
            disposed = true;
        });
    }
    assert!(disposed);
}

#[test]
fn test_unsubscribe() {
    let disposed = Arc::new(RwLock::new(false));
    let disposed_clone = disposed.clone();
    let subscription = Subscription::new(move || {
        let mut disposed = disposed_clone.write().unwrap();
        assert!(!*disposed);
        *disposed = true;
    });
    assert!(!*disposed.read().unwrap());
    subscription.unsubscribe();
    assert!(*disposed.read().unwrap());
}

#[test]
fn test_dropped() {
    let disposed = Arc::new(RwLock::new(false));
    let disposed_clone = disposed.clone();
    {
        let subscription = Subscription::new(move || {
            let mut disposed = disposed_clone.write().unwrap();
            assert!(!*disposed);
            *disposed = true;
        });
        assert!(!*disposed.read().unwrap());

        _ = subscription; // keep the subscription alive
    }
    assert!(*disposed.read().unwrap());
}

#[test]
fn mod_test_unsubscribe() {
    let disposed = Arc::new(RwLock::new(false));
    let disposed_clone = disposed.clone();
    let subscriber = Subscriber::new(move || {
        let mut disposed = disposed_clone.write().unwrap();
        assert!(!*disposed);
        *disposed = true;
    });
    assert!(!*disposed.read().unwrap());
    subscriber.unsubscribe();
    assert!(*disposed.read().unwrap());
}

#[test]
fn mod_test_dropped() {
    let disposed = Arc::new(RwLock::new(false));
    let disposed_clone = disposed.clone();
    {
        let subscriber = Subscriber::new(move || {
            let mut disposed = disposed_clone.write().unwrap();
            assert!(!*disposed);
            *disposed = true;
        });
        assert!(!*disposed.read().unwrap());

        _ = subscriber; // keep the subscriber alive
    }
    assert!(*disposed.read().unwrap());
}

#[test]
fn test_call_dispose() {
    let disposed = Arc::new(Mutex::new(false));
    let disposed_cloned = disposed.clone();
    let disposal = Disposal::new(move || {
        let mut disposed = disposed_cloned.lock().unwrap();
        assert!(!*disposed);
        *disposed = true;
    });
    disposal.dispose();
    assert!(*disposed.lock().unwrap());
}

#[test]
fn disposal_test_dropped() {
    let disposed = Arc::new(Mutex::new(false));
    let disposed_cloned = disposed.clone();
    {
        Disposal::new(move || {
            let mut disposed = disposed_cloned.lock().unwrap();
            assert!(!*disposed);
            *disposed = true;
        });
    }
    assert!(*disposed.lock().unwrap());
}

#[test]
fn disposal_runs_exactly_once_across_both_triggers() {
    // Explicit unsubscribe and the end of scope both reach the handle; the
    // counter shows the cleanup ran on the first trigger alone.
    let count = Arc::new(Mutex::new(0u32));
    let count_cloned = count.clone();
    {
        let subscription = Subscription::new(move || {
            *count_cloned.lock().unwrap() += 1;
        });
        subscription.unsubscribe();
    }
    assert_eq!(*count.lock().unwrap(), 1);
}

#[test]
fn unsubscribe_after_empty_subscription_is_harmless() {
    let subscription = Subscription::new_empty();
    subscription.unsubscribe();
    let subscriber = Subscriber::new_empty();
    subscriber.unsubscribe();
    let disposal: Disposal<fn()> = Disposal::new_no_action();
    disposal.dispose();
}
