//! The seal of the vector traits.

use vstd::prelude::*;

verus! {

/// Implemented for the vector types that this crate covers and for no other:
/// the traits that require it cannot be implemented elsewhere.
pub trait Sealed {
}

} // verus!
