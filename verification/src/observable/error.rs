use crate::operators::error::Error;
use vstd::prelude::*;

verus! {

/// An observable that emits `error` and nothing else.
pub fn error<E>(err: E) -> (r: Error<E>)
    ensures
        r.error_of() == err,
{
    Error::new(err)
}

/// An observable that emits a clone-capable `error` and nothing else; kept
/// alongside [`error`] from the days when the two differed in how they
/// handed the error over.
pub fn error_cloned<E: Clone>(err: E) -> (r: Error<E>)
    ensures
        r.error_of() == err,
{
    Error::new(err)
}

} // verus!
