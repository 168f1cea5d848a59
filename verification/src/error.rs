//! Error codes surfaced by the crank and its registry operations.

use vstd::prelude::*;

verus! {

/// One distinct code per hard-failure condition, so the external caller can
/// tell "try again later" (window conditions) from "data corruption"
/// (checksums) from "configuration error" (identity mismatches).
#[derive(Clone, Copy, Debug, PartialEq, Eq, Structural)]
pub enum CrankError {
    /// The validator registry does not carry the checksum the pool expects.
    ValidatorRegistryChecksumMismatch,
    /// The delegation registry does not carry the checksum the pool expects.
    DelegationRegistryChecksumMismatch,
    /// The supplied time-history reference is not the well-known identity.
    WrongStakeHistoryAccount,
    /// The supplied delegation slot is not in the uninitialized state.
    SlotNotUninitialized,
    /// The supplied delegation slot does not hold exactly the rent-exempt
    /// minimum balance.
    WrongSlotBalance,
    /// The validator index exceeds the validator registry's count.
    ValidatorIndexOutOfRange,
    /// The caller-supplied validator identity does not match the record.
    WrongValidatorIdentity,
    /// The current slot falls outside the end-of-epoch rebalancing window.
    StakingOutsideWindow,
    /// The delegation registry is at capacity.
    DelegationRegistryFull,
    /// An addition or subtraction on pooled funds would have wrapped.
    CalculationFailure,
}

impl CrankError {
    /// A short stable label for logs kept outside the library.
    pub fn label(&self) -> (r: &'static str)
    {
        match self {
            CrankError::ValidatorRegistryChecksumMismatch => "validator registry checksum mismatch",
            CrankError::DelegationRegistryChecksumMismatch => "delegation registry checksum mismatch",
            CrankError::WrongStakeHistoryAccount => "wrong stake history account",
            CrankError::SlotNotUninitialized => "delegation slot not uninitialized",
            CrankError::WrongSlotBalance => "wrong delegation slot balance",
            CrankError::ValidatorIndexOutOfRange => "validator index out of range",
            CrankError::WrongValidatorIdentity => "wrong validator identity",
            CrankError::StakingOutsideWindow => "staking outside the allowed window",
            CrankError::DelegationRegistryFull => "delegation registry full",
            CrankError::CalculationFailure => "calculation failure",
        }
    }
}

} // verus!
