//! Opaque 256-bit identities (accounts, authorities, validators).
//!
//! The engine only ever compares identities for equality and stores them in
//! records; it never derives or inspects them. A host converts its native
//! 32-byte keys to and from the four words.

use vstd::prelude::*;

verus! {

/// A 256-bit identity, held as four 64-bit words (most significant first).
#[derive(Clone, Copy, Debug, PartialEq, Eq, Structural)]
pub struct Identity {
    pub w0: u64,
    pub w1: u64,
    pub w2: u64,
    pub w3: u64,
}

impl Identity {
    pub fn new(w0: u64, w1: u64, w2: u64, w3: u64) -> (r: Identity)
        ensures
            r == (Identity { w0, w1, w2, w3 }),
    {
        Identity { w0, w1, w2, w3 }
    }

    /// Equality test usable from executable code.
    pub fn same_as(&self, other: &Identity) -> (r: bool)
        ensures
            r == (*self == *other),
    {
        self.w0 == other.w0 && self.w1 == other.w1 && self.w2 == other.w2
            && self.w3 == other.w3
    }
}

} // verus!
