use vstd::prelude::*;

verus! {

/// Keeps [`crate::element::Element`] from being implemented outside this
/// library.
pub trait Sealed {}

} // verus!
