use vstd::prelude::*;

verus! {

/// Keeps the set of access kinds closed: only this crate can name this trait,
/// so only this crate can implement the traits that require it.
pub trait Sealed {}

} // verus!
