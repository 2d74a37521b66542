//! The supertrait that closes the set of validation contexts.

use vstd::prelude::*;

verus! {

/// A trait that only this crate can implement.
pub trait Sealed {

}

} // verus!
