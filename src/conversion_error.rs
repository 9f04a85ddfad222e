//! The error of a conversion into a type with a smaller value range.
use vstd::prelude::*;

verus! {

/// An error which can occur when converting from a type with a greater value range to one with
/// a smaller one.
#[derive(Clone, Copy, Eq, PartialEq, Debug)]
pub struct TryFromGreaterError(pub(crate) ());

} // verus!
