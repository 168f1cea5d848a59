//! Order-sensitive checksums over registry contents.
//!
//! Each registry stores a checksum over the digests of its records; the pool
//! aggregate state records, for each registry instance, the checksum it
//! expects, so that stale or foreign registry data is rejected before any
//! operation touches it.

use vstd::prelude::*;

use crate::ident::Identity;

verus! {

/// Multiplier folding one more digest into an accumulator.
pub const CHECKSUM_PRIME: u64 = 0x100000001b3;

/// Modulus of the 64-bit accumulator.
pub const CHECKSUM_MODULUS: u128 = 0x1_0000_0000_0000_0000;

/// One folding step of the checksum: multiply the accumulator by a fixed
/// prime, absorb the next digest, and keep the low 64 bits.
pub open spec fn mix(acc: u64, d: u64) -> u64 {
    (((acc as int) * (CHECKSUM_PRIME as int) + (d as int)) % (CHECKSUM_MODULUS as int)) as u64
}

/// The checksum of a sequence of digests, folded left to right.
pub open spec fn checksum_of(s: Seq<u64>) -> u64
    decreases s.len(),
{
    if s.len() == 0 {
        0
    } else {
        mix(checksum_of(s.drop_last()), s.last())
    }
}

/// Executable counterpart of [`mix`].
pub fn mix_step(acc: u64, d: u64) -> (r: u64)
    ensures
        r == mix(acc, d),
{
    proof {
        vstd::arithmetic::mul::lemma_mul_upper_bound(
            acc as int,
            u64::MAX as int,
            CHECKSUM_PRIME as int,
            CHECKSUM_PRIME as int,
        );
    }
    let wide: u128 = (acc as u128) * (CHECKSUM_PRIME as u128) + (d as u128);
    (wide % CHECKSUM_MODULUS) as u64
}

/// A record whose contents can be folded into a registry checksum.
pub trait Digestible {
    /// The digest a record contributes to its registry's checksum.
    spec fn digest_spec(&self) -> u64;

    fn digest(&self) -> (r: u64)
        ensures
            r == self.digest_spec(),
    ;
}

/// The digests of a sequence of records, in registry order.
pub open spec fn digests_of<R: Digestible>(s: Seq<R>) -> Seq<u64> {
    s.map_values(|r: R| r.digest_spec())
}

/// The checksum over a whole sequence of records.
pub open spec fn records_checksum<R: Digestible>(s: Seq<R>) -> u64 {
    checksum_of(digests_of(s))
}

/// Computes the checksum over the records of a registry buffer.
pub fn compute_checksum<R: Digestible>(records: &Vec<R>) -> (r: u64)
    ensures
        r == records_checksum(records@),
{
    let n = records.len();
    let mut acc: u64 = 0;
    let mut i: usize = 0;
    while i < n
        invariant
            i <= n,
            n == records@.len(),
            acc == checksum_of(digests_of(records@).take(i as int)),
        decreases n - i,
    {
        let d = records[i].digest();
        proof {
            let ds = digests_of(records@);
            assert(ds.take(i + 1).drop_last() =~= ds.take(i as int));
            assert(ds.take(i + 1).last() == ds[i as int]);
        }
        acc = mix_step(acc, d);
        i = i + 1;
    }
    proof {
        assert(digests_of(records@).take(n as int) =~= digests_of(records@));
    }
    acc
}

/// Appending one record extends the checksum by one folding step.
pub proof fn lemma_checksum_push(s: Seq<u64>, d: u64)
    ensures
        checksum_of(s.push(d)) == mix(checksum_of(s), d),
{
    assert(s.push(d).drop_last() =~= s);
    assert(s.push(d).last() == d);
}

/// The digest an identity contributes to a record digest.
pub open spec fn identity_digest_spec(id: Identity) -> u64 {
    mix(mix(mix(mix(1, id.w0), id.w1), id.w2), id.w3)
}

/// Folds the four words of an identity into a digest.
pub fn identity_digest(id: &Identity) -> (r: u64)
    ensures
        r == identity_digest_spec(*id),
{
    mix_step(mix_step(mix_step(mix_step(1, id.w0), id.w1), id.w2), id.w3)
}

} // verus!
