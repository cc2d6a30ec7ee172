use vstd::prelude::*;

verus! {

/// A 128-bit identifier, the raw value of a UUID.
#[derive(Clone, Copy, PartialEq, Eq, Structural, Debug)]
pub struct Id {
    pub value: u128,
}

/// Relies on uuid::Uuid::new_v4 for a random identifier, and on
/// uuid::Uuid::as_u128 for its raw value; the result is random, so nothing is
/// promised of it.
#[verifier::external_body]
pub(crate) fn fresh_id() -> Id {
    Id { value: uuid::Uuid::new_v4().as_u128() }
}

} // verus!
