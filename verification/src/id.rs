//! Identifiers.
use vstd::prelude::*;

verus! {

/// A universally unique identifier, as its 128 bits.
#[derive(Debug, Clone, Copy, PartialEq, Eq, Hash, Structural)]
pub struct Uuid(pub u128);

} // verus!
