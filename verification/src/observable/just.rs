use crate::operators::just::Just;
use vstd::prelude::*;

verus! {

/// An observable that emits `value` once and then completes.
pub fn just<T>(value: T) -> (r: Just<T>)
    ensures
        r.value_of() == value,
{
    Just::new(value)
}

/// An observable that emits a clone-capable `value` once and then completes;
/// kept alongside [`just`] from the days when the two differed in how they
/// handed the value over.
pub fn just_cloned<T: Clone>(value: T) -> (r: Just<T>)
    ensures
        r.value_of() == value,
{
    Just::new(value)
}

} // verus!
