//! Fixed-capacity, checksum-validated registries of fixed-size records.
//!
//! A registry is an ordered sequence of records under a header holding the
//! capacity and a checksum over the contents. Every operation first verifies
//! that the registry carries the checksum the pool aggregate state expects
//! for that registry instance; operations that write keep the header
//! checksum in step with the contents and hand the new value back to the
//! caller so it can update the pool's expectation.

use vstd::prelude::*;
use vstd::pervasive::VecAdditionalExecFns;

use crate::checksum::{
    compute_checksum, digests_of, lemma_checksum_push, mix_step, records_checksum, Digestible,
};

verus! {

/// Why a registry operation was refused. The engine maps these to the
/// registry-specific [`crate::error::CrankError`] codes.
#[derive(Clone, Copy, Debug, PartialEq, Eq, Structural)]
pub enum RegistryError {
    /// The registry does not carry the checksum the pool expects, or its
    /// header checksum does not match its contents.
    ChecksumMismatch,
    /// The index exceeds the registry's count.
    IndexOutOfRange,
    /// The registry is at capacity.
    Full,
}

/// A checksummed registry of records of type `R`.
pub struct Registry<R> {
    /// Most records the registry may ever hold.
    pub capacity: u64,
    /// Header checksum over the current contents.
    pub checksum: u64,
    /// The records, in registry order.
    pub records: Vec<R>,
}

impl<R: Digestible + Copy> Registry<R> {
    /// The header is consistent with the contents and the count fits the
    /// capacity.
    pub open spec fn valid(self) -> bool {
        &&& self.records@.len() <= self.capacity
        &&& self.checksum == records_checksum(self.records@)
    }

    /// The registry is internally consistent and is the instance the pool
    /// expects: its checksum equals `expected`.
    pub open spec fn accepts(self, expected: u64) -> bool {
        self.valid() && self.checksum == expected
    }

    /// An empty registry; its checksum is the checksum of no records.
    pub fn new(capacity: u64) -> (r: Registry<R>)
        ensures
            r.capacity == capacity,
            r.checksum == 0,
            r.records@ =~= Seq::<R>::empty(),
            r.valid(),
    {
        let records: Vec<R> = Vec::new();
        proof {
            assert(digests_of(records@) =~= Seq::<u64>::empty());
        }
        Registry { capacity, checksum: 0, records }
    }

    /// Checks that this registry is the one the pool expects.
    pub fn validate(&self, expected: u64) -> (r: bool)
        ensures
            r == self.accepts(expected),
    {
        if self.checksum != expected {
            return false;
        }
        if (self.records.len() as u64) > self.capacity {
            return false;
        }
        let computed = compute_checksum(&self.records);
        computed == self.checksum
    }

    /// Indexed read, after validating the registry against the pool's
    /// expectation.
    pub fn get(&self, expected: u64, index: u32) -> (r: Result<R, RegistryError>)
        ensures
            r is Ok <==> self.accepts(expected) && (index as int) < self.records@.len(),
            r matches Ok(rec) ==> rec == self.records@[index as int],
            !self.accepts(expected) ==> r == Err::<R, RegistryError>(RegistryError::ChecksumMismatch),
            self.accepts(expected) && (index as int) >= self.records@.len() ==> r == Err::<
                R,
                RegistryError,
            >(RegistryError::IndexOutOfRange),
    {
        if !self.validate(expected) {
            return Err(RegistryError::ChecksumMismatch);
        }
        if (index as usize) >= self.records.len() {
            return Err(RegistryError::IndexOutOfRange);
        }
        Ok(self.records[index as usize])
    }

    /// Indexed overwrite, after validation; returns the new checksum, which
    /// the caller records as the pool's new expectation.
    pub fn set(&mut self, expected: u64, index: u32, rec: R) -> (r: Result<u64, RegistryError>)
        ensures
            r is Ok <==> old(self).accepts(expected) && (index as int) < old(self).records@.len(),
            r matches Ok(c) ==> {
                &&& final(self).records@ =~= old(self).records@.update(index as int, rec)
                &&& final(self).capacity == old(self).capacity
                &&& final(self).checksum == c
                &&& final(self).valid()
            },
            r is Err ==> *final(self) == *old(self),
            !old(self).accepts(expected) ==> r == Err::<u64, RegistryError>(
                RegistryError::ChecksumMismatch,
            ),
            old(self).accepts(expected) && (index as int) >= old(self).records@.len() ==> r
                == Err::<u64, RegistryError>(RegistryError::IndexOutOfRange),
    {
        if !self.validate(expected) {
            return Err(RegistryError::ChecksumMismatch);
        }
        if (index as usize) >= self.records.len() {
            return Err(RegistryError::IndexOutOfRange);
        }
        self.records.set(index as usize, rec);
        let c = compute_checksum(&self.records);
        self.checksum = c;
        Ok(c)
    }

    /// Append, after validation; fails with [`RegistryError::Full`] when the
    /// registry is at capacity. Returns the new checksum.
    pub fn add(&mut self, expected: u64, rec: R) -> (r: Result<u64, RegistryError>)
        ensures
            r is Ok <==> old(self).accepts(expected) && old(self).records@.len() < old(
                self,
            ).capacity,
            r matches Ok(c) ==> {
                &&& final(self).records@ =~= old(self).records@.push(rec)
                &&& final(self).capacity == old(self).capacity
                &&& final(self).checksum == c
                &&& final(self).valid()
            },
            r is Err ==> *final(self) == *old(self),
            !old(self).accepts(expected) ==> r == Err::<u64, RegistryError>(
                RegistryError::ChecksumMismatch,
            ),
            old(self).accepts(expected) && old(self).records@.len() >= old(self).capacity ==> r
                == Err::<u64, RegistryError>(RegistryError::Full),
    {
        if !self.validate(expected) {
            return Err(RegistryError::ChecksumMismatch);
        }
        if (self.records.len() as u64) >= self.capacity {
            return Err(RegistryError::Full);
        }
        let d = rec.digest();
        let c = mix_step(self.checksum, d);
        self.records.push(rec);
        self.checksum = c;
        proof {
            assert(digests_of(self.records@) =~= digests_of(old(self).records@).push(
                rec.digest_spec(),
            ));
            lemma_checksum_push(digests_of(old(self).records@), rec.digest_spec());
        }
        Ok(c)
    }

    /// The registry's count, with no validation; spec-level callers index
    /// `records` directly.
    pub fn count(&self) -> (r: u64)
        ensures
            r == self.records@.len(),
    {
        self.records.len() as u64
    }
}

} // verus!
