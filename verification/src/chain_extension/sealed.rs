//! Keeps the set of environment states closed.
use vstd::prelude::*;

verus! {

/// Trait to prevent users from implementing `State` for anything else.
pub trait Sealed {}

} // verus!
