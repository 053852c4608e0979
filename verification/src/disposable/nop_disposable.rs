use crate::disposable::Disposable;
use vstd::prelude::*;

verus! {

/// A disposable that does nothing when disposed.
pub struct NopDisposable;

impl Disposable for NopDisposable {
    open spec fn wf(self) -> bool {
        true
    }

    fn dispose(self) {
    }
}

} // verus!
