use crate::observable::Observable;
use crate::observer::Observer;
use vstd::prelude::*;

verus! {

/// Erases the concrete type of an observable behind the trait: useful for
/// writing a pipeline's type once.
pub trait ObservableIntoExt<T, E, OR: Observer<T, E>> where Self: core::marker::Sized {
    /// The observable `into_observable` hands back.
    type Out: Observable<T, E, OR>;

    /// Hands the observable back under its trait.
    fn into_observable(self) -> Self::Out;
}

impl<T, E, OR, OE> ObservableIntoExt<T, E, OR> for OE where
    OR: Observer<T, E>,
    OE: Observable<T, E, OR>,
 {
    type Out = OE;

    fn into_observable(self) -> (r: OE) {
        self
    }
}

} // verus!
