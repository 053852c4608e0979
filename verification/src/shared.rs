use std::marker::PhantomData;
use std::sync::Arc;
use vstd::prelude::*;

verus! {

/// Relies on `Arc::clone`: the clone is another handle on the very same
/// allocation, so as a value it is the pointed-to value itself, unchanged.
/// The engine's `Clone` impls for shared handles go through this.
#[verifier::external_body]
pub(crate) fn clone_arc<T>(arc: &Arc<T>) -> (r: Arc<T>)
    ensures
        r == *arc,
{
    Arc::clone(arc)
}

/// Relies on `PhantomData::clone`: a phantom is a unit value, so its clone
/// is itself.  The engine's derived `Clone` impls go through this when a
/// struct carries a phantom marker.
pub assume_specification<T: core::marker::PointeeSized>[ <PhantomData<T> as Clone>::clone ](
    b: &PhantomData<T>,
) -> (res: PhantomData<T>)
    ensures
        res == *b,
;

/// Relies on `Duration::clone`: a duration is a plain value, so its clone
/// is itself.
pub assume_specification[ <core::time::Duration as Clone>::clone ](b: &core::time::Duration) -> (
    res: core::time::Duration)
    ensures
        res == *b,
;

} // verus!
