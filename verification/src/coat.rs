//! The capability a type must meet to be storable.

use vstd::prelude::*;

verus! {

/// Marker for storable value types: a value must be safe to move across
/// thread boundaries and its concrete type must be recoverable from an
/// erased representation at runtime, which requires `'static`. Every such
/// type qualifies automatically through the blanket implementation.
pub trait Coat: Send + 'static {
}

impl<T: Send + 'static> Coat for T {
}

} // verus!
