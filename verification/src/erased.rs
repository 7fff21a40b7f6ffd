//! Type erasure and recovery for storable values.
//!
//! A storable value is erased into an [`ErasedCoat`], which keeps only the
//! value and its runtime type tag. Recovery hands the value back at its
//! original type, and fails — returning the erased value unchanged — when
//! another type is requested. Both operations are thin trusted wrappers
//! around the standard library's `Any` machinery, which Verus cannot read.

use vstd::prelude::*;
use crate::coat::Coat;

verus! {

/// An owned, type-erased storable value: a `Box<dyn Any + Send>` together
/// with the runtime type tag the standard library keeps for it. Opaque to
/// verification; the only ways to make or open one are [`erase_coat`] and
/// [`recover_coat`].
#[verifier::external_body]
pub struct ErasedCoat {
    inner: Box<dyn core::any::Any + Send>,
}

/// Relies on `Box::new` and the unsizing coercion to `Box<dyn Any + Send>`:
/// discards the value's static type, keeping the value itself and its
/// runtime type tag for later recovery.
#[verifier::external_body]
pub(crate) fn erase_coat<T: Coat>(value: T) -> ErasedCoat {
    ErasedCoat { inner: Box::new(value) }
}

/// Relies on `Box::<dyn Any + Send>::downcast`: returns `Ok` with the
/// original value exactly when the erased value's runtime type is `T`, and
/// otherwise returns the argument unchanged (`downcast` hands back the very
/// same box on failure), so a mismatched request loses nothing.
#[verifier::external_body]
pub(crate) fn recover_coat<T: Coat>(erased: ErasedCoat) -> (r: Result<T, ErasedCoat>)
    ensures
        r matches Err(back) ==> back == erased,
{
    match erased.inner.downcast::<T>() {
        Ok(value) => Ok(*value),
        Err(inner) => Err(ErasedCoat { inner }),
    }
}

} // verus!
