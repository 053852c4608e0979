use crate::subject::base_subject::BaseSubject;
use vstd::prelude::*;

verus! {

/// The plain multicast hub under its conventional name: it replays nothing
/// to late subscribers.
pub type PublishSubject<T, E, O> = BaseSubject<T, E, O>;

} // verus!
