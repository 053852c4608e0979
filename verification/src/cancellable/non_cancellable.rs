use crate::cancellable::Cancellable;
use vstd::prelude::*;

verus! {

/// A cancellable that does nothing when cancelled.
pub struct NonCancellable;

impl Cancellable for NonCancellable {
    open spec fn wf(self) -> bool {
        true
    }

    fn cancel(self) {
    }
}

} // verus!
