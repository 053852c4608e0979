use crate::cancellable::Cancellable;
use core::time::Duration;
use vstd::prelude::*;

verus! {

/// An execution context that runs a task now or after a delay.
///
/// With no delay the task is merely eligible to run at once — it may run on
/// another thread, with no ordering against the caller's next instructions;
/// with a delay it does not begin before the delay has elapsed.  The
/// returned handle calls the task off: invoked before the task starts, the
/// task never runs; invoked after, it is a safe no-op.  Concrete schedulers
/// implement this trait outside the engine; the delay operator is written
/// against it alone.
pub trait Scheduler where Self: core::marker::Sized {
    /// The handle that calls a scheduled task off.
    type Cancel: Cancellable;

    /// Schedules `task`, to run no earlier than `delay` from now, and hands
    /// back a cancellation handle fit to invoke.
    fn schedule<F: FnOnce() + Send + 'static>(&self, task: F, delay: Option<Duration>) -> (r:
        Self::Cancel)
        requires
            call_requires(task, ()),
        ensures
            r.wf(),
    ;
}

} // verus!
