pub mod anonymous_disposable;
pub mod nop_disposable;

use vstd::prelude::*;

verus! {

/// A resource whose cleanup can be run exactly once, consuming it.
///
/// Subscription handles are built from disposables: the handle owns one
/// disposable and runs it on the first of its two triggers (an explicit call
/// or the end of scope), never on the second.
pub trait Disposable where Self: core::marker::Sized {
    /// What must hold of this value for its cleanup to be runnable; by
    /// default, nothing.
    open spec fn wf(self) -> bool {
        true
    }

    /// What is known once the cleanup has run; by default, nothing.
    open spec fn done(self) -> bool {
        true
    }

    /// Runs the cleanup.
    fn dispose(self)
        requires
            self.wf(),
        ensures
            self.done(),
    ;
}

} // verus!
