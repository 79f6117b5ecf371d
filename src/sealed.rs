//! A trait that only this crate can implement, so that the capability
//! traits stay limited to the wiring declared here.
use vstd::prelude::*;

verus! {

pub trait Sealed {}

} // verus!
