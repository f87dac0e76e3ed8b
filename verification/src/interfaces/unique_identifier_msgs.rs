//! `unique_identifier_msgs`: the 128-bit identifier that names a goal.

use vstd::prelude::*;

verus! {

/// A universally unique identifier.
///
/// The sixteen bytes are held as one number, most significant byte first, so
/// that the order of identifiers is the order of their numbers.
#[derive(Clone, Copy, Debug, PartialEq, Eq, Structural, PartialOrd, Ord, Hash)]
pub struct UUID {
    /// The identifier as a number.
    pub value: u128,
}

impl View for UUID {
    type V = u128;

    open spec fn view(&self) -> u128 {
        self.value
    }
}

impl UUID {
    /// The identifier whose bits are all zero.
    pub open spec fn spec_zero() -> UUID {
        UUID { value: 0 }
    }

    /// The all-zero identifier. Cancel requests use it to mean "any goal".
    #[verifier::when_used_as_spec(spec_zero)]
    pub fn zero() -> (id: UUID)
        ensures
            id == UUID::spec_zero(),
    {
        UUID { value: 0 }
    }

    /// Makes an identifier from its number.
    pub fn from_u128(value: u128) -> (id: UUID)
        ensures
            id@ == value,
    {
        UUID { value }
    }

    /// The identifier's number.
    pub fn as_u128(&self) -> (value: u128)
        ensures
            value == self@,
    {
        self.value
    }

    /// Whether this is the all-zero identifier.
    pub fn is_zero(&self) -> (b: bool)
        ensures
            b == (*self == UUID::spec_zero()),
    {
        self.value == 0
    }
}

} // verus!
