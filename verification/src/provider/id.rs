//! Generation of fresh identifiers.
use crate::shared::clock::random_u128;
use vstd::prelude::*;

verus! {

/// Source of fresh 128-bit identifiers (the bits of a UUID).
pub trait IdGenerator {
    /// The identifiers that this generator may hand out.
    spec fn issues(&self, id: u128) -> bool;

    /// A fresh identifier, one of those the generator issues.
    fn new_id(&self) -> (r: u128)
        ensures
            self.issues(r),
    ;
}

/// Draws identifiers at random.
#[derive(Debug, Clone, Copy)]
pub struct UuidGenerator;

impl IdGenerator for UuidGenerator {
    /// Any 128-bit value may be drawn.
    open spec fn issues(&self, id: u128) -> bool {
        true
    }

    fn new_id(&self) -> u128 {
        random_u128()
    }
}

/// Hands out the same identifier every time; meant for tests.
#[derive(Debug, Clone, Copy)]
pub struct MockIdGenerator {
    pub id: u128,
}

impl MockIdGenerator {
    /// A generator that always answers `id`.
    pub fn new(id: u128) -> (r: MockIdGenerator)
        ensures
            r.id == id,
    {
        MockIdGenerator { id }
    }
}

impl IdGenerator for MockIdGenerator {
    /// Only the configured identifier.
    open spec fn issues(&self, id: u128) -> bool {
        id == self.id
    }

    fn new_id(&self) -> (r: u128)
        ensures
            r == self.id,
    {
        self.id
    }
}

} // verus!
