//! The pool aggregate state: reserve policy, epoch-window policy, and
//! running totals, together with the checksums it expects of the two
//! registries.

use vstd::prelude::*;

use crate::error::CrankError;
use crate::ident::Identity;
use crate::records::ValidatorRecord;
use crate::registry::Registry;
use crate::records::DelegationRecord;

verus! {

/// Sum of the active balances over a validator registry's records.
pub open spec fn sum_active(s: Seq<ValidatorRecord>) -> int
    decreases s.len(),
{
    if s.len() == 0 {
        0
    } else {
        sum_active(s.drop_last()) + s.last().active_balance
    }
}

/// Sum of the target weights over a validator registry's records.
pub open spec fn sum_weights(s: Seq<ValidatorRecord>) -> int
    decreases s.len(),
{
    if s.len() == 0 {
        0
    } else {
        sum_weights(s.drop_last()) + s.last().target_weight
    }
}

/// Overwriting one record moves the active-balance sum by the difference of
/// the two records' balances.
pub proof fn lemma_sum_active_update(s: Seq<ValidatorRecord>, i: int, r: ValidatorRecord)
    requires
        0 <= i < s.len(),
    ensures
        sum_active(s.update(i, r)) == sum_active(s) - s[i].active_balance + r.active_balance,
    decreases s.len(),
{
    if i == s.len() - 1 {
        assert(s.update(i, r).drop_last() =~= s.drop_last());
    } else {
        assert(s.update(i, r).drop_last() =~= s.drop_last().update(i, r));
        lemma_sum_active_update(s.drop_last(), i, r);
    }
}

/// Overwriting one record moves the target-weight sum by the difference of
/// the two records' weights.
pub proof fn lemma_sum_weights_update(s: Seq<ValidatorRecord>, i: int, r: ValidatorRecord)
    requires
        0 <= i < s.len(),
    ensures
        sum_weights(s.update(i, r)) == sum_weights(s) - s[i].target_weight + r.target_weight,
    decreases s.len(),
{
    if i == s.len() - 1 {
        assert(s.update(i, r).drop_last() =~= s.drop_last());
    } else {
        assert(s.update(i, r).drop_last() =~= s.drop_last().update(i, r));
        lemma_sum_weights_update(s.drop_last(), i, r);
    }
}

/// Proportional allocation of `total_stake_target` by target weight,
/// rounded down. Rounding down keeps the targets, summed over all
/// validators, from exceeding the pool-wide total.
pub open spec fn stake_target_spec(weight: u64, total_weight: u64, total_stake_target: u64) -> int {
    if total_weight == 0 {
        0
    } else {
        (weight * total_stake_target) / (total_weight as int)
    }
}

/// A validator whose weight is within the pool-wide total is never allotted
/// more than the pool-wide total.
pub proof fn lemma_stake_target_within_total(weight: u64, total_weight: u64, total_stake_target: u64)
    requires
        weight <= total_weight,
    ensures
        0 <= stake_target_spec(weight, total_weight, total_stake_target) <= total_stake_target,
{
    if total_weight != 0 {
        assert(weight * total_stake_target <= total_weight * total_stake_target) by (nonlinear_arith)
            requires weight <= total_weight,
        ;
        assert(weight * total_stake_target / (total_weight as int) <= total_stake_target)
            by (nonlinear_arith)
            requires
                total_weight > 0,
                weight * total_stake_target <= total_weight * total_stake_target,
        ;
        assert(weight * total_stake_target >= 0) by (nonlinear_arith);
        assert(weight * total_stake_target / (total_weight as int) >= 0) by (nonlinear_arith)
            requires
                total_weight > 0,
                weight * total_stake_target >= 0,
        ;
    }
}

/// Sum of every validator's proportional target allocation.
pub open spec fn sum_targets(s: Seq<ValidatorRecord>, total_weight: u64, total_stake_target: u64) -> int
    decreases s.len(),
{
    if s.len() == 0 {
        0
    } else {
        sum_targets(s.drop_last(), total_weight, total_stake_target) + stake_target_spec(
            s.last().target_weight,
            total_weight,
            total_stake_target,
        )
    }
}

pub proof fn lemma_sum_weights_nonneg(s: Seq<ValidatorRecord>)
    ensures
        sum_weights(s) >= 0,
    decreases s.len(),
{
    if s.len() > 0 {
        lemma_sum_weights_nonneg(s.drop_last());
    }
}

/// Rounding down distributes over addition only in the safe direction.
proof fn lemma_floor_add(a: int, b: int, d: int)
    requires
        0 <= a,
        0 <= b,
        0 < d,
    ensures
        a / d + b / d <= (a + b) / d,
{
    vstd::arithmetic::div_mod::lemma_fundamental_div_mod(a, d);
    vstd::arithmetic::div_mod::lemma_fundamental_div_mod(b, d);
    vstd::arithmetic::div_mod::lemma_mod_bound(a, d);
    vstd::arithmetic::div_mod::lemma_mod_bound(b, d);
    assert(d * (a / d + b / d) == d * (a / d) + d * (b / d)) by (nonlinear_arith);
    assert(d * (a / d + b / d) <= a + b);
    vstd::arithmetic::div_mod::lemma_div_pos_is_pos(a, d);
    vstd::arithmetic::div_mod::lemma_div_pos_is_pos(b, d);
    vstd::arithmetic::div_mod::lemma_div_by_multiple(a / d + b / d, d);
    assert((a / d + b / d) * d == d * (a / d + b / d)) by (nonlinear_arith);
    vstd::arithmetic::div_mod::lemma_div_is_ordered(d * (a / d + b / d), a + b, d);
}

proof fn lemma_sum_targets_le_quotient(s: Seq<ValidatorRecord>, total_weight: u64, t: u64)
    requires
        total_weight > 0,
    ensures
        sum_targets(s, total_weight, t) <= (sum_weights(s) * t) / (total_weight as int),
    decreases s.len(),
{
    if s.len() == 0 {
        assert((0 * t) / (total_weight as int) == 0) by (nonlinear_arith)
            requires
                total_weight > 0,
        ;
    } else {
        let d = s.drop_last();
        let lw = s.last().target_weight;
        lemma_sum_targets_le_quotient(d, total_weight, t);
        lemma_sum_weights_nonneg(d);
        assert(sum_weights(d) * t >= 0) by (nonlinear_arith)
            requires
                sum_weights(d) >= 0,
                t >= 0,
        ;
        assert((lw as int) * t >= 0) by (nonlinear_arith)
            requires
                lw >= 0,
                t >= 0,
        ;
        lemma_floor_add(sum_weights(d) * t, (lw as int) * t, total_weight as int);
        vstd::arithmetic::mul::lemma_mul_is_distributive_add_other_way(
            t as int,
            sum_weights(d),
            lw as int,
        );
    }
}

proof fn lemma_sum_targets_zero_weight(s: Seq<ValidatorRecord>, t: u64)
    ensures
        sum_targets(s, 0, t) == 0,
    decreases s.len(),
{
    if s.len() > 0 {
        lemma_sum_targets_zero_weight(s.drop_last(), t);
    }
}

/// The rounding policy of the proportional allocation: summed across all
/// validators, the rounded-down targets never exceed the pool-wide stake
/// target, whenever the recorded total weight covers the registry's
/// weights.
pub proof fn lemma_targets_sum_within_total(
    s: Seq<ValidatorRecord>,
    total_weight: u64,
    total_stake_target: u64,
)
    requires
        sum_weights(s) <= total_weight,
    ensures
        sum_targets(s, total_weight, total_stake_target) <= total_stake_target,
{
    if total_weight == 0 {
        lemma_sum_targets_zero_weight(s, total_stake_target);
    } else {
        lemma_sum_targets_le_quotient(s, total_weight, total_stake_target);
        lemma_sum_weights_nonneg(s);
        vstd::arithmetic::mul::lemma_mul_inequality(
            sum_weights(s),
            total_weight as int,
            total_stake_target as int,
        );
        vstd::arithmetic::div_mod::lemma_div_is_ordered(
            sum_weights(s) * total_stake_target,
            (total_weight as int) * total_stake_target,
            total_weight as int,
        );
        vstd::arithmetic::mul::lemma_mul_is_commutative(
            total_weight as int,
            total_stake_target as int,
        );
        vstd::arithmetic::div_mod::lemma_div_multiples_vanish(
            total_stake_target as int,
            total_weight as int,
        );
    }
}

/// Every record's weight is within the sum over its registry.
pub proof fn lemma_record_weight_le_sum(s: Seq<ValidatorRecord>, i: int)
    requires
        0 <= i < s.len(),
    ensures
        s[i].target_weight <= sum_weights(s),
    decreases s.len(),
{
    if i == s.len() - 1 {
        lemma_sum_weights_nonneg(s.drop_last());
    } else {
        lemma_record_weight_le_sum(s.drop_last(), i);
    }
}

/// Under the pool invariant the recorded total weight covers every record's
/// weight, so a validator's proportional target never exceeds the pool-wide
/// stake target — in particular, its computation always fits and never
/// fails.
pub proof fn lemma_linked_target_fits(
    st: PoolState,
    vreg: Registry<ValidatorRecord>,
    dreg: Registry<DelegationRecord>,
    i: int,
    total_stake_target: u64,
)
    requires
        linked(st, vreg, dreg),
        0 <= i < vreg.records@.len(),
    ensures
        0 <= stake_target_spec(
            vreg.records@[i].target_weight,
            st.total_target_weight,
            total_stake_target,
        ) <= total_stake_target,
{
    lemma_record_weight_le_sum(vreg.records@, i);
    lemma_stake_target_within_total(
        vreg.records@[i].target_weight,
        st.total_target_weight,
        total_stake_target,
    );
}

/// The larger of two amounts.
pub open spec fn max64(a: u64, b: u64) -> u64 {
    if a >= b {
        a
    } else {
        b
    }
}

/// The smaller of two amounts.
pub open spec fn min64(a: u64, b: u64) -> u64 {
    if a <= b {
        a
    } else {
        b
    }
}

/// `a + b`, clamped at the largest representable amount.
pub open spec fn sat_add64(a: u64, b: u64) -> u64 {
    if a + b > u64::MAX {
        u64::MAX
    } else {
        (a + b) as u64
    }
}

/// `a - b`, clamped at zero.
pub open spec fn sat_sub64(a: u64, b: u64) -> u64 {
    if a <= b {
        0
    } else {
        (a - b) as u64
    }
}

/// The pool aggregate state: a singleton, mutated only by this engine and
/// by the out-of-scope deposit, withdrawal, and unstake collaborators.
#[derive(Clone, Copy, Debug, PartialEq, Eq, Structural)]
pub struct PoolState {
    /// Authority controlling the pool's idle-funds (reserve) account.
    pub reserve_authority_key: Identity,
    /// Authority controlling the pool's delegation accounts.
    pub delegation_authority_key: Identity,
    /// Minimum amount worth transferring in one action.
    pub min_stake: u64,
    /// Additional same-epoch rebalance actions still permitted pool-wide.
    pub extra_stake_delta_runs: u32,
    /// Width, in slots, of the end-of-epoch window during which rebalancing
    /// is allowed.
    pub slots_for_stake_delta: u64,
    /// Last epoch in which any rebalance action ran.
    pub last_stake_delta_epoch: u64,
    /// Sum of all validators' active balances (invariant over the validator
    /// registry).
    pub total_active_balance: u64,
    /// Sum of all validators' target weights (invariant over the validator
    /// registry).
    pub total_target_weight: u64,
    /// Reserve policy: the part of the reserve balance that is never
    /// deployed.
    pub reserve_floor: u64,
    /// The reserve funds the pool's accounting still considers deployable.
    pub available_reserve_balance: u64,
    /// Checksum the pool expects of the validator registry.
    pub validator_registry_checksum: u64,
    /// Checksum the pool expects of the delegation registry.
    pub delegation_registry_checksum: u64,
}

/// The aggregate state and the two registries it governs belong together:
/// the expected checksums match, the registries are internally consistent,
/// and the running totals equal the sums over the validator registry.
pub open spec fn linked(
    st: PoolState,
    vreg: Registry<ValidatorRecord>,
    dreg: Registry<DelegationRecord>,
) -> bool {
    &&& vreg.accepts(st.validator_registry_checksum)
    &&& dreg.accepts(st.delegation_registry_checksum)
    &&& st.total_active_balance == sum_active(vreg.records@)
    &&& st.total_target_weight == sum_weights(vreg.records@)
}

impl PoolState {
    /// Pool-wide funds available to deploy (positive) or required to
    /// withdraw (negative), as a pure function of the current reserve
    /// balance and the reserve policy.
    pub open spec fn stake_delta_spec(self, reserve_balance: u64) -> int {
        reserve_balance - self.reserve_floor
    }

    pub fn stake_delta(&self, reserve_balance: u64) -> (r: i128)
        ensures
            r == self.stake_delta_spec(reserve_balance),
    {
        reserve_balance as i128 - self.reserve_floor as i128
    }

    /// Records that `amount` left the reserve; fails, mutating nothing, if
    /// that would make the tracked reserve accounting inconsistent.
    pub fn on_transfer_from_reserve(&mut self, amount: u64) -> (r: Result<(), CrankError>)
        ensures
            r is Ok <==> amount <= old(self).available_reserve_balance,
            r is Ok ==> *final(self) == (PoolState {
                available_reserve_balance: (old(self).available_reserve_balance - amount) as u64,
                ..*old(self)
            }),
            r is Err ==> *final(self) == *old(self) && r == Err::<(), CrankError>(
                CrankError::CalculationFailure,
            ),
    {
        match self.available_reserve_balance.checked_sub(amount) {
            Some(rest) => {
                self.available_reserve_balance = rest;
                Ok(())
            },
            None => Err(CrankError::CalculationFailure),
        }
    }

    /// Proportional allocation for one validator record (§ registry):
    /// `target_weight / sum of target weights * total_stake_target`,
    /// rounded down; fails only when the quotient cannot be represented.
    pub fn validator_stake_target(&self, record: &ValidatorRecord, total_stake_target: u64) -> (r:
        Result<u64, CrankError>)
        ensures
            r is Ok <==> stake_target_spec(
                record.target_weight,
                self.total_target_weight,
                total_stake_target,
            ) <= u64::MAX,
            r matches Ok(v) ==> v == stake_target_spec(
                record.target_weight,
                self.total_target_weight,
                total_stake_target,
            ),
            r is Err ==> r == Err::<u64, CrankError>(CrankError::CalculationFailure),
    {
        if self.total_target_weight == 0 {
            return Ok(0);
        }
        proof {
            vstd::arithmetic::mul::lemma_mul_upper_bound(
                record.target_weight as int,
                u64::MAX as int,
                total_stake_target as int,
                u64::MAX as int,
            );
        }
        let q: u128 = (record.target_weight as u128) * (total_stake_target as u128)
            / (self.total_target_weight as u128);
        if q > u64::MAX as u128 {
            Err(CrankError::CalculationFailure)
        } else {
            Ok(q as u64)
        }
    }
}

} // verus!
