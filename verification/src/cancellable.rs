pub mod anonymous_cancellable;
pub mod non_cancellable;

use vstd::prelude::*;

verus! {

/// A pending piece of work that can be called off, consuming the handle.
/// Schedulers hand one back for every scheduled task.
pub trait Cancellable where Self: core::marker::Sized {
    /// What must hold of this value for `cancel` to be callable; by
    /// default, nothing.
    open spec fn wf(self) -> bool {
        true
    }

    /// Calls the pending work off.
    fn cancel(self)
        requires
            self.wf(),
    ;
}

} // verus!
