pub mod base_subject;
pub mod behavior_subject;
pub mod publish_subject;
pub mod registry;

use crate::observable::Observable;
use crate::observer::event::Event;
use crate::observer::Observer;
use vstd::prelude::*;

verus! {

/// An entity that is both a producer and a consumer: it multicasts one
/// upstream stream to every observer currently subscribed to it.
pub trait Subject<T, E, OR: Observer<T, E>>: Observable<T, E, OR> + Observer<T, E> {
    /// Pushes one upstream event at the subject.  If the subject has already
    /// seen a terminal event, the event is dropped; otherwise it is fanned
    /// out to every live registration.
    fn notify_if_unterminated(&self, event: Event<T, E>);
}

} // verus!
