//! The record types held by the two checksummed registries.

use vstd::prelude::*;

use crate::checksum::{mix, mix_step, identity_digest, identity_digest_spec, Digestible};
use crate::ident::Identity;

verus! {

/// One validator of the pool's fixed set, order-indexed in the validator
/// registry.
#[derive(Clone, Copy, Debug, PartialEq, Eq, Structural)]
pub struct ValidatorRecord {
    /// The validator's voting identity.
    pub validator_identity: Identity,
    /// Amount currently delegated to this validator.
    pub active_balance: u64,
    /// Externally supplied target weight; its computation is outside this
    /// core.
    pub target_weight: u64,
    /// The last epoch in which the crank acted on this validator.
    pub last_stake_delta_epoch: u64,
}

impl Digestible for ValidatorRecord {
    open spec fn digest_spec(&self) -> u64 {
        mix(
            mix(mix(identity_digest_spec(self.validator_identity), self.active_balance),
                self.target_weight),
            self.last_stake_delta_epoch,
        )
    }

    fn digest(&self) -> (r: u64) {
        mix_step(
            mix_step(
                mix_step(identity_digest(&self.validator_identity), self.active_balance),
                self.target_weight,
            ),
            self.last_stake_delta_epoch,
        )
    }
}

/// One outstanding delegation, appended to the delegation registry when the
/// crank completes; never mutated in place by this core.
#[derive(Clone, Copy, Debug, PartialEq, Eq, Structural)]
pub struct DelegationRecord {
    /// Identity of the delegation account the funds were moved into.
    pub delegation_account_identity: Identity,
    /// Amount committed to the delegation.
    pub amount: u64,
    /// Epoch in which the delegation was created.
    pub created_epoch: u64,
    /// Nonzero when the delegation is being emergency-unstaked (never set by
    /// this core).
    pub is_emergency_unstaking: u8,
}

impl Digestible for DelegationRecord {
    open spec fn digest_spec(&self) -> u64 {
        mix(
            mix(mix(identity_digest_spec(self.delegation_account_identity), self.amount),
                self.created_epoch),
            self.is_emergency_unstaking as u64,
        )
    }

    fn digest(&self) -> (r: u64) {
        mix_step(
            mix_step(
                mix_step(identity_digest(&self.delegation_account_identity), self.amount),
                self.created_epoch,
            ),
            self.is_emergency_unstaking as u64,
        )
    }
}

} // verus!
