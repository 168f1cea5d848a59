//! The rebalance engine (the crank).
//!
//! One invocation names a validator and supplies an empty delegation slot.
//! [`StakeReserve::process`] validates both registries, applies the
//! epoch/min-stake policy, and computes how much to move from the reserve;
//! the host then drives the three-step external delegation protocol
//! (transfer, initialize, delegate) and, on success of all three steps,
//! calls [`StakeReserve::commit`] to apply the bookkeeping. A hard failure
//! anywhere leaves no partial state: the decision never writes at all, a
//! soft no-op changes nothing, `commit` mutates nothing when it fails, and
//! a protocol failure means `commit` is never reached.

use vstd::prelude::*;

use crate::checksum::records_checksum;
use crate::error::CrankError;
use crate::ident::Identity;
use crate::records::{DelegationRecord, ValidatorRecord};
use crate::registry::Registry;
use crate::schedule::EpochSchedule;
use crate::state::{
    lemma_sum_active_update, lemma_sum_weights_update, linked, max64, min64, sat_add64, sat_sub64,
    stake_target_spec, sum_active, sum_weights, PoolState,
};

verus! {

/// The delegation slot's protocol state: the engine only ever starts from
/// `Uninitialized` and drives the slot through `Initialized` to `Delegated`
/// within one invocation.
#[derive(Clone, Copy, Debug, PartialEq, Eq, Structural)]
pub enum SlotState {
    Uninitialized,
    Initialized,
    Delegated,
}

/// Inputs the environment supplies at call time.
#[derive(Clone, Copy, Debug, PartialEq, Eq, Structural)]
pub struct CrankEnv {
    /// The current epoch.
    pub current_epoch: u64,
    /// The current slot.
    pub current_slot: u64,
    /// Parameters locating the last slot of the current epoch.
    pub epoch_schedule: EpochSchedule,
    /// The minimum balance that keeps a delegation slot rent-exempt.
    pub slot_rent_exempt_minimum: u64,
    /// The well-known identity of the time-history reference expected by
    /// the external protocol.
    pub stake_history_id: Identity,
}

/// The accounts and environment inputs of one crank invocation.
#[derive(Clone, Copy, Debug, PartialEq, Eq, Structural)]
pub struct StakeReserve {
    /// Call-time environment inputs.
    pub env: CrankEnv,
    /// The time-history reference account the caller supplied.
    pub stake_history: Identity,
    /// Protocol state of the supplied delegation slot.
    pub slot_state: SlotState,
    /// Balance of the supplied delegation slot.
    pub slot_balance: u64,
    /// Identity of the supplied delegation slot.
    pub slot_identity: Identity,
    /// The caller-supplied identity of the target validator's vote account.
    pub validator_vote: Identity,
    /// Current balance of the pool's reserve account.
    pub reserve_balance: u64,
}

/// The action one invocation decided on: the host performs the external
/// protocol with `amount` under the two named authorities and hands the
/// plan back to [`StakeReserve::commit`].
#[derive(Clone, Copy, Debug, PartialEq, Eq, Structural)]
pub struct StakePlan {
    /// Amount to move from the reserve into the delegation slot.
    pub amount: u64,
    /// Whether this action spends one of the pool's extra same-epoch runs.
    pub consume_extra_run: bool,
    /// The pool's recorded authority over its reserve account; it signs the
    /// transfer step.
    pub reserve_authority: Identity,
    /// The pool's recorded authority over its delegation accounts; the slot
    /// is initialized under it and it signs the delegation step.
    pub delegation_authority: Identity,
}

/// What one successful `process` call decided. The three parameterless
/// variants are soft no-ops: the crank succeeds and nothing is to be done.
#[derive(Clone, Copy, Debug, PartialEq, Eq, Structural)]
pub enum StakeOutcome {
    /// The pool has nothing to deploy (`stake_delta <= 0`).
    NothingToDeploy,
    /// The validator was already cranked this epoch and no extra runs
    /// remain.
    DoubleActionBlocked,
    /// The validator has already reached its target allocation.
    AlreadyAtTarget,
    /// Move funds: drive the external protocol, then commit.
    Stake(StakePlan),
}

/// The amount one action transfers: the validator's shortfall against its
/// target, floored at `min_stake` and capped at `delta`; if that would
/// leave a remainder below `min_stake`, the entire `delta` is taken instead.
pub open spec fn stake_amount_spec(target: u64, active_balance: u64, min_stake: u64, delta: u64) -> u64 {
    let clamped = min64(max64(sat_sub64(target, active_balance), min_stake), delta);
    if delta - clamped < min_stake {
        delta
    } else {
        clamped
    }
}

/// Executable counterpart of [`stake_amount_spec`].
pub fn compute_stake_amount(target: u64, active_balance: u64, min_stake: u64, delta: u64) -> (r:
    u64)
    ensures
        r == stake_amount_spec(target, active_balance, min_stake, delta),
{
    let shortfall = if target > active_balance {
        target - active_balance
    } else {
        0
    };
    let mut amount = if shortfall >= min_stake {
        shortfall
    } else {
        min_stake
    };
    if amount > delta {
        amount = delta;
    }
    if delta - amount < min_stake {
        delta
    } else {
        amount
    }
}

/// The transferred amount never exceeds `delta`, is never below `min_stake`
/// unless it is the entire `delta`, and never leaves a remainder in
/// `[1, min_stake)`.
pub proof fn lemma_transfer_amount_bounds(target: u64, active_balance: u64, min_stake: u64, delta: u64)
    ensures
        ({
            let a = stake_amount_spec(target, active_balance, min_stake, delta);
            &&& a <= delta
            &&& a == delta || a >= min_stake
            &&& a == delta || delta - a >= min_stake
        }),
{
}

/// The hard preconditions that every crank invocation checks first: both
/// registries are the ones the pool expects, the time-history reference is
/// the well-known identity, and the supplied delegation slot is
/// uninitialized with exactly the rent-exempt minimum balance.
pub open spec fn preconditions_hold(
    r: StakeReserve,
    st: PoolState,
    vreg: Registry<ValidatorRecord>,
    dreg: Registry<DelegationRecord>,
) -> bool {
    &&& vreg.accepts(st.validator_registry_checksum)
    &&& dreg.accepts(st.delegation_registry_checksum)
    &&& r.stake_history == r.env.stake_history_id
    &&& r.slot_state == SlotState::Uninitialized
    &&& r.slot_balance == r.env.slot_rent_exempt_minimum
}

/// The decision [`StakeReserve::process`] returns, as a function of the
/// invocation, the aggregate state, the two registries and the validator
/// index, with the checks in the order they are made.
pub open spec fn process_result_spec(
    r: StakeReserve,
    st: PoolState,
    vreg: Registry<ValidatorRecord>,
    dreg: Registry<DelegationRecord>,
    validator_index: u32,
) -> Result<StakeOutcome, CrankError> {
    if !vreg.accepts(st.validator_registry_checksum) {
        Err(CrankError::ValidatorRegistryChecksumMismatch)
    } else if !dreg.accepts(st.delegation_registry_checksum) {
        Err(CrankError::DelegationRegistryChecksumMismatch)
    } else if r.stake_history != r.env.stake_history_id {
        Err(CrankError::WrongStakeHistoryAccount)
    } else if r.slot_state != SlotState::Uninitialized {
        Err(CrankError::SlotNotUninitialized)
    } else if r.slot_balance != r.env.slot_rent_exempt_minimum {
        Err(CrankError::WrongSlotBalance)
    } else if st.stake_delta_spec(r.reserve_balance) <= 0 {
        Ok(StakeOutcome::NothingToDeploy)
    } else {
        let delta = (r.reserve_balance - st.reserve_floor) as u64;
        let total_stake_target = sat_add64(st.total_active_balance, delta);
        if validator_index >= vreg.records@.len() {
            Err(CrankError::ValidatorIndexOutOfRange)
        } else {
            let rec = vreg.records@[validator_index as int];
            if r.validator_vote != rec.validator_identity {
                Err(CrankError::WrongValidatorIdentity)
            } else {
                let same_epoch = rec.last_stake_delta_epoch == r.env.current_epoch;
                if same_epoch && st.extra_stake_delta_runs == 0 {
                    Ok(StakeOutcome::DoubleActionBlocked)
                } else {
                    let last_slot = r.env.epoch_schedule.last_slot_spec(r.env.current_epoch);
                    if r.env.current_slot < sat_sub64(last_slot, st.slots_for_stake_delta) {
                        Err(CrankError::StakingOutsideWindow)
                    } else {
                        let target = stake_target_spec(
                            rec.target_weight,
                            st.total_target_weight,
                            total_stake_target,
                        );
                        if target > u64::MAX {
                            Err(CrankError::CalculationFailure)
                        } else if rec.active_balance >= target {
                            Ok(StakeOutcome::AlreadyAtTarget)
                        } else {
                            Ok(
                                StakeOutcome::Stake(
                                    StakePlan {
                                        amount: stake_amount_spec(
                                            target as u64,
                                            rec.active_balance,
                                            st.min_stake,
                                            delta,
                                        ),
                                        consume_extra_run: same_epoch,
                                        reserve_authority: st.reserve_authority_key,
                                        delegation_authority: st.delegation_authority_key,
                                    },
                                ),
                            )
                        }
                    }
                }
            }
        }
    }
}

impl StakeReserve {
    /// Checks that the supplied time-history reference is the well-known
    /// identity the external protocol expects.
    pub fn check_stake_history(&self) -> (r: Result<(), CrankError>)
        ensures
            r is Ok <==> self.stake_history == self.env.stake_history_id,
            r is Err ==> r == Err::<(), CrankError>(CrankError::WrongStakeHistoryAccount),
    {
        if self.stake_history.same_as(&self.env.stake_history_id) {
            Ok(())
        } else {
            Err(CrankError::WrongStakeHistoryAccount)
        }
    }

    /// The crank's decision: validates both registries and the supplied
    /// slot, applies the deploy, epoch, window and target policies, and
    /// computes the amount to move. Soft no-ops are `Ok`; hard failures are
    /// `Err`. The decision reads and never writes: a soft no-op leaves every
    /// resource byte-for-byte unchanged, and the pool's extra same-epoch run
    /// is spent only when a planned action actually commits.
    pub fn process(
        &self,
        state: &PoolState,
        validator_registry: &Registry<ValidatorRecord>,
        delegation_registry: &Registry<DelegationRecord>,
        validator_index: u32,
    ) -> (r: Result<StakeOutcome, CrankError>)
        ensures
            r == process_result_spec(
                *self,
                *state,
                *validator_registry,
                *delegation_registry,
                validator_index,
            ),
    {
        if !validator_registry.validate(state.validator_registry_checksum) {
            return Err(CrankError::ValidatorRegistryChecksumMismatch);
        }
        if !delegation_registry.validate(state.delegation_registry_checksum) {
            return Err(CrankError::DelegationRegistryChecksumMismatch);
        }
        match self.check_stake_history() {
            Ok(()) => (),
            Err(e) => {
                return Err(e);
            },
        }
        if self.slot_state != SlotState::Uninitialized {
            return Err(CrankError::SlotNotUninitialized);
        }
        if self.slot_balance != self.env.slot_rent_exempt_minimum {
            return Err(CrankError::WrongSlotBalance);
        }
        let delta_signed = state.stake_delta(self.reserve_balance);
        if delta_signed <= 0 {
            // a soft no-op: a negative delta asks the (out-of-scope)
            // unstaking crank for work, not this one
            return Ok(StakeOutcome::NothingToDeploy);
        }
        let delta: u64 = self.reserve_balance - state.reserve_floor;
        let total_stake_target = match state.total_active_balance.checked_add(delta) {
            Some(v) => v,
            None => u64::MAX,
        };
        let rec = match validator_registry.get(state.validator_registry_checksum, validator_index) {
            Ok(rec) => rec,
            Err(_) => {
                return Err(CrankError::ValidatorIndexOutOfRange);
            },
        };
        if !self.validator_vote.same_as(&rec.validator_identity) {
            return Err(CrankError::WrongValidatorIdentity);
        }
        let same_epoch = rec.last_stake_delta_epoch == self.env.current_epoch;
        if same_epoch && state.extra_stake_delta_runs == 0 {
            // a soft no-op: double action this epoch with no override budget
            return Ok(StakeOutcome::DoubleActionBlocked);
        }
        let last_slot = self.env.epoch_schedule.get_last_slot_in_epoch(self.env.current_epoch);
        let threshold = if last_slot > state.slots_for_stake_delta {
            last_slot - state.slots_for_stake_delta
        } else {
            0
        };
        if self.env.current_slot < threshold {
            return Err(CrankError::StakingOutsideWindow);
        }
        let target = match state.validator_stake_target(&rec, total_stake_target) {
            Ok(t) => t,
            Err(e) => {
                return Err(e);
            },
        };
        if rec.active_balance >= target {
            // a soft no-op: nothing changes, and in particular the extra
            // run stays unspent because no action is performed
            return Ok(StakeOutcome::AlreadyAtTarget);
        }
        let amount = compute_stake_amount(target, rec.active_balance, state.min_stake, delta);
        Ok(StakeOutcome::Stake(
            StakePlan {
                amount,
                consume_extra_run: same_epoch,
                reserve_authority: state.reserve_authority_key,
                delegation_authority: state.delegation_authority_key,
            },
        ))
    }

    /// The bookkeeping the host applies once all three protocol steps have
    /// succeeded, as a function of the same inputs and the plan, with the
    /// checks in the order they are made. `commit` mutates nothing unless
    /// every check passes.
    pub open spec fn commit_result_spec(
        self,
        st: PoolState,
        vreg: Registry<ValidatorRecord>,
        dreg: Registry<DelegationRecord>,
        validator_index: u32,
        plan: StakePlan,
    ) -> Result<(), CrankError> {
        if !vreg.accepts(st.validator_registry_checksum) {
            Err(CrankError::ValidatorRegistryChecksumMismatch)
        } else if validator_index >= vreg.records@.len() {
            Err(CrankError::ValidatorIndexOutOfRange)
        } else if !dreg.accepts(st.delegation_registry_checksum) {
            Err(CrankError::DelegationRegistryChecksumMismatch)
        } else if dreg.records@.len() >= dreg.capacity {
            Err(CrankError::DelegationRegistryFull)
        } else if plan.amount > st.available_reserve_balance {
            Err(CrankError::CalculationFailure)
        } else if plan.consume_extra_run && st.extra_stake_delta_runs == 0 {
            Err(CrankError::CalculationFailure)
        } else if vreg.records@[validator_index as int].active_balance + plan.amount > u64::MAX {
            Err(CrankError::CalculationFailure)
        } else if st.total_active_balance + plan.amount > u64::MAX {
            Err(CrankError::CalculationFailure)
        } else {
            Ok(())
        }
    }

    /// The validator record as `commit` rewrites it: the transferred amount
    /// is added to the active balance and the epoch mark is set.
    pub open spec fn committed_record(rec: ValidatorRecord, amount: u64, epoch: u64) -> ValidatorRecord {
        ValidatorRecord {
            active_balance: (rec.active_balance + amount) as u64,
            last_stake_delta_epoch: epoch,
            ..rec
        }
    }

    /// The delegation record `commit` appends for this invocation's slot.
    pub open spec fn new_delegation_record(self, plan: StakePlan) -> DelegationRecord {
        DelegationRecord {
            delegation_account_identity: self.slot_identity,
            amount: plan.amount,
            created_epoch: self.env.current_epoch,
            is_emergency_unstaking: 0,
        }
    }

    /// The validator registry's records after a successful `commit`.
    pub open spec fn commit_validator_records_spec(
        self,
        vreg: Registry<ValidatorRecord>,
        validator_index: u32,
        plan: StakePlan,
    ) -> Seq<ValidatorRecord> {
        vreg.records@.update(
            validator_index as int,
            Self::committed_record(
                vreg.records@[validator_index as int],
                plan.amount,
                self.env.current_epoch,
            ),
        )
    }

    /// The delegation registry's records after a successful `commit`.
    pub open spec fn commit_delegation_records_spec(
        self,
        dreg: Registry<DelegationRecord>,
        plan: StakePlan,
    ) -> Seq<DelegationRecord> {
        dreg.records@.push(self.new_delegation_record(plan))
    }

    /// The pool aggregate state after a successful `commit`: the totals and
    /// the reserve accounting move by the transferred amount, one extra run
    /// is spent when the plan consumed it, both epoch marks are set, and the
    /// pool expects the rewritten registries.
    pub open spec fn commit_state_spec(
        self,
        st: PoolState,
        vreg: Registry<ValidatorRecord>,
        dreg: Registry<DelegationRecord>,
        validator_index: u32,
        plan: StakePlan,
    ) -> PoolState {
        PoolState {
            total_active_balance: (st.total_active_balance + plan.amount) as u64,
            extra_stake_delta_runs: if plan.consume_extra_run {
                (st.extra_stake_delta_runs - 1) as u32
            } else {
                st.extra_stake_delta_runs
            },
            last_stake_delta_epoch: self.env.current_epoch,
            available_reserve_balance: (st.available_reserve_balance - plan.amount) as u64,
            validator_registry_checksum: records_checksum(
                self.commit_validator_records_spec(vreg, validator_index, plan),
            ),
            delegation_registry_checksum: records_checksum(
                self.commit_delegation_records_spec(dreg, plan),
            ),
            ..st
        }
    }

    /// Applies the bookkeeping of a completed action: appends the delegation
    /// record, adds the transferred amount to the validator's active balance
    /// and to the pool's total (checked additions), marks the epoch on the
    /// record, the registry header and the pool, spends the extra run the
    /// plan consumed, and settles the reserve accounting. Every check runs
    /// before the first write, so a failure leaves all three resources
    /// byte-for-byte unchanged.
    pub fn commit(
        &self,
        state: &mut PoolState,
        validator_registry: &mut Registry<ValidatorRecord>,
        delegation_registry: &mut Registry<DelegationRecord>,
        validator_index: u32,
        plan: StakePlan,
    ) -> (r: Result<(), CrankError>)
        ensures
            r == self.commit_result_spec(
                *old(state),
                *old(validator_registry),
                *old(delegation_registry),
                validator_index,
                plan,
            ),
            r is Err ==> *final(state) == *old(state) && *final(validator_registry) == *old(
                validator_registry,
            ) && *final(delegation_registry) == *old(delegation_registry),
            r is Ok ==> final(validator_registry).records@ =~= self.commit_validator_records_spec(
                *old(validator_registry),
                validator_index,
                plan,
            ),
            r is Ok ==> final(validator_registry).capacity == old(validator_registry).capacity
                && final(validator_registry).valid(),
            r is Ok ==> final(delegation_registry).records@ =~= self.commit_delegation_records_spec(
                *old(delegation_registry),
                plan,
            ),
            r is Ok ==> final(delegation_registry).capacity == old(delegation_registry).capacity
                && final(delegation_registry).valid(),
            r is Ok ==> *final(state) == self.commit_state_spec(
                *old(state),
                *old(validator_registry),
                *old(delegation_registry),
                validator_index,
                plan,
            ),
            r is Ok ==> final(state).total_active_balance == old(state).total_active_balance
                + plan.amount,
            r is Ok ==> final(validator_registry).records@[validator_index as int].active_balance
                == old(validator_registry).records@[validator_index as int].active_balance
                + plan.amount,
            r is Ok ==> sum_active(final(validator_registry).records@) == sum_active(
                old(validator_registry).records@,
            ) + plan.amount,
            r is Ok ==> sum_weights(final(validator_registry).records@) == sum_weights(
                old(validator_registry).records@,
            ),
            r is Ok && linked(*old(state), *old(validator_registry), *old(delegation_registry))
                ==> linked(*final(state), *final(validator_registry), *final(delegation_registry)),
    {
        if !validator_registry.validate(state.validator_registry_checksum) {
            return Err(CrankError::ValidatorRegistryChecksumMismatch);
        }
        let rec = match validator_registry.get(state.validator_registry_checksum, validator_index) {
            Ok(rec) => rec,
            Err(_) => {
                return Err(CrankError::ValidatorIndexOutOfRange);
            },
        };
        if !delegation_registry.validate(state.delegation_registry_checksum) {
            return Err(CrankError::DelegationRegistryChecksumMismatch);
        }
        if delegation_registry.count() >= delegation_registry.capacity {
            return Err(CrankError::DelegationRegistryFull);
        }
        if plan.amount > state.available_reserve_balance {
            return Err(CrankError::CalculationFailure);
        }
        if plan.consume_extra_run && state.extra_stake_delta_runs == 0 {
            return Err(CrankError::CalculationFailure);
        }
        let new_active = match rec.active_balance.checked_add(plan.amount) {
            Some(v) => v,
            None => {
                return Err(CrankError::CalculationFailure);
            },
        };
        let new_total = match state.total_active_balance.checked_add(plan.amount) {
            Some(v) => v,
            None => {
                return Err(CrankError::CalculationFailure);
            },
        };
        // every check has passed: none of the writes below can fail
        match state.on_transfer_from_reserve(plan.amount) {
            Ok(()) => (),
            Err(e) => {
                return Err(e);
            },
        }
        let drec = DelegationRecord {
            delegation_account_identity: self.slot_identity,
            amount: plan.amount,
            created_epoch: self.env.current_epoch,
            is_emergency_unstaking: 0,
        };
        let dchk = match delegation_registry.add(state.delegation_registry_checksum, drec) {
            Ok(c) => c,
            Err(_) => {
                return Err(CrankError::DelegationRegistryChecksumMismatch);
            },
        };
        state.delegation_registry_checksum = dchk;
        let new_rec = ValidatorRecord {
            active_balance: new_active,
            last_stake_delta_epoch: self.env.current_epoch,
            ..rec
        };
        let vchk = match validator_registry.set(
            state.validator_registry_checksum,
            validator_index,
            new_rec,
        ) {
            Ok(c) => c,
            Err(_) => {
                return Err(CrankError::ValidatorRegistryChecksumMismatch);
            },
        };
        state.validator_registry_checksum = vchk;
        if plan.consume_extra_run {
            state.extra_stake_delta_runs = state.extra_stake_delta_runs - 1;
        }
        state.last_stake_delta_epoch = self.env.current_epoch;
        state.total_active_balance = new_total;
        proof {
            lemma_sum_active_update(
                old(validator_registry).records@,
                validator_index as int,
                new_rec,
            );
            lemma_sum_weights_update(
                old(validator_registry).records@,
                validator_index as int,
                new_rec,
            );
        }
        Ok(())
    }
}

/// When the pool has nothing to deploy, the crank succeeds and leaves the
/// aggregate state unchanged (the registries are read-only to `process`).
pub proof fn lemma_nothing_to_deploy_is_noop(
    r: StakeReserve,
    st: PoolState,
    vreg: Registry<ValidatorRecord>,
    dreg: Registry<DelegationRecord>,
    validator_index: u32,
)
    requires
        preconditions_hold(r, st, vreg, dreg),
        st.stake_delta_spec(r.reserve_balance) <= 0,
    ensures
        process_result_spec(r, st, vreg, dreg, validator_index) == Ok::<StakeOutcome, CrankError>(
            StakeOutcome::NothingToDeploy,
        ),
{
}

/// A second action for the same validator in the same epoch is refused
/// softly when no extra runs remain: the crank succeeds and nothing changes.
/// A successful `commit` leaves the record's epoch mark at the current
/// epoch, so this applies verbatim to the state a completed action leaves
/// behind.
pub proof fn lemma_double_action_blocked(
    r: StakeReserve,
    st: PoolState,
    vreg: Registry<ValidatorRecord>,
    dreg: Registry<DelegationRecord>,
    validator_index: u32,
)
    requires
        preconditions_hold(r, st, vreg, dreg),
        st.stake_delta_spec(r.reserve_balance) > 0,
        validator_index < vreg.records@.len(),
        r.validator_vote == vreg.records@[validator_index as int].validator_identity,
        vreg.records@[validator_index as int].last_stake_delta_epoch == r.env.current_epoch,
        st.extra_stake_delta_runs == 0,
    ensures
        process_result_spec(r, st, vreg, dreg, validator_index) == Ok::<StakeOutcome, CrankError>(
            StakeOutcome::DoubleActionBlocked,
        ),
{
}

/// With extra runs left, a same-epoch action within the window, for a
/// validator still under target, proceeds and plans to spend one run;
/// `commit`'s contract then decrements the counter by exactly one.
pub proof fn lemma_same_epoch_uses_extra_run(
    r: StakeReserve,
    st: PoolState,
    vreg: Registry<ValidatorRecord>,
    dreg: Registry<DelegationRecord>,
    validator_index: u32,
)
    requires
        preconditions_hold(r, st, vreg, dreg),
        st.stake_delta_spec(r.reserve_balance) > 0,
        validator_index < vreg.records@.len(),
        r.validator_vote == vreg.records@[validator_index as int].validator_identity,
        vreg.records@[validator_index as int].last_stake_delta_epoch == r.env.current_epoch,
        st.extra_stake_delta_runs > 0,
        r.env.current_slot >= sat_sub64(
            r.env.epoch_schedule.last_slot_spec(r.env.current_epoch),
            st.slots_for_stake_delta,
        ),
        stake_target_spec(
            vreg.records@[validator_index as int].target_weight,
            st.total_target_weight,
            sat_add64(st.total_active_balance, (r.reserve_balance - st.reserve_floor) as u64),
        ) <= u64::MAX,
        vreg.records@[validator_index as int].active_balance < stake_target_spec(
            vreg.records@[validator_index as int].target_weight,
            st.total_target_weight,
            sat_add64(st.total_active_balance, (r.reserve_balance - st.reserve_floor) as u64),
        ),
    ensures
        ({
            let delta = (r.reserve_balance - st.reserve_floor) as u64;
            let rec = vreg.records@[validator_index as int];
            let target = stake_target_spec(
                rec.target_weight,
                st.total_target_weight,
                sat_add64(st.total_active_balance, delta),
            ) as u64;
            process_result_spec(r, st, vreg, dreg, validator_index) == Ok::<
                StakeOutcome,
                CrankError,
            >(
                StakeOutcome::Stake(
                    StakePlan {
                        amount: stake_amount_spec(target, rec.active_balance, st.min_stake, delta),
                        consume_extra_run: true,
                        reserve_authority: st.reserve_authority_key,
                        delegation_authority: st.delegation_authority_key,
                    },
                ),
            )
        }),
{
}

/// The full override-run story: with exactly one extra run left, a
/// same-epoch action within the window for an under-target validator
/// proceeds, and — provided the bookkeeping's own resource checks pass
/// (room in the delegation registry, amount within the tracked reserve, no
/// balance overflow) — the bookkeeping succeeds, spends the run down to
/// zero, appends the delegation record, and sets the epoch mark on the
/// validator record and on the pool alike. Without those resource
/// conditions the bookkeeping returns its distinct error and changes
/// nothing, as `commit`'s contract states.
pub proof fn lemma_extra_run_spent_to_zero(
    r: StakeReserve,
    st: PoolState,
    vreg: Registry<ValidatorRecord>,
    dreg: Registry<DelegationRecord>,
    validator_index: u32,
)
    requires
        preconditions_hold(r, st, vreg, dreg),
        st.stake_delta_spec(r.reserve_balance) > 0,
        validator_index < vreg.records@.len(),
        r.validator_vote == vreg.records@[validator_index as int].validator_identity,
        vreg.records@[validator_index as int].last_stake_delta_epoch == r.env.current_epoch,
        st.extra_stake_delta_runs == 1,
        r.env.current_slot >= sat_sub64(
            r.env.epoch_schedule.last_slot_spec(r.env.current_epoch),
            st.slots_for_stake_delta,
        ),
        stake_target_spec(
            vreg.records@[validator_index as int].target_weight,
            st.total_target_weight,
            sat_add64(st.total_active_balance, (r.reserve_balance - st.reserve_floor) as u64),
        ) <= u64::MAX,
        vreg.records@[validator_index as int].active_balance < stake_target_spec(
            vreg.records@[validator_index as int].target_weight,
            st.total_target_weight,
            sat_add64(st.total_active_balance, (r.reserve_balance - st.reserve_floor) as u64),
        ),
        dreg.records@.len() < dreg.capacity,
        ({
            let delta = (r.reserve_balance - st.reserve_floor) as u64;
            let rec = vreg.records@[validator_index as int];
            let target = stake_target_spec(
                rec.target_weight,
                st.total_target_weight,
                sat_add64(st.total_active_balance, delta),
            ) as u64;
            let amount = stake_amount_spec(target, rec.active_balance, st.min_stake, delta);
            &&& amount <= st.available_reserve_balance
            &&& rec.active_balance + amount <= u64::MAX
            &&& st.total_active_balance + amount <= u64::MAX
        }),
    ensures
        ({
            let delta = (r.reserve_balance - st.reserve_floor) as u64;
            let rec = vreg.records@[validator_index as int];
            let target = stake_target_spec(
                rec.target_weight,
                st.total_target_weight,
                sat_add64(st.total_active_balance, delta),
            ) as u64;
            let plan = StakePlan {
                amount: stake_amount_spec(target, rec.active_balance, st.min_stake, delta),
                consume_extra_run: true,
                reserve_authority: st.reserve_authority_key,
                delegation_authority: st.delegation_authority_key,
            };
            &&& process_result_spec(r, st, vreg, dreg, validator_index) == Ok::<
                StakeOutcome,
                CrankError,
            >(StakeOutcome::Stake(plan))
            &&& r.commit_result_spec(st, vreg, dreg, validator_index, plan) == Ok::<
                (),
                CrankError,
            >(())
            &&& r.commit_state_spec(st, vreg, dreg, validator_index, plan).extra_stake_delta_runs
                == 0
            &&& r.commit_state_spec(st, vreg, dreg, validator_index, plan).last_stake_delta_epoch
                == r.env.current_epoch
            &&& r.commit_validator_records_spec(vreg, validator_index, plan)[validator_index as int]
                == StakeReserve::committed_record(rec, plan.amount, r.env.current_epoch)
            &&& r.commit_validator_records_spec(
                vreg,
                validator_index,
                plan,
            )[validator_index as int].last_stake_delta_epoch == r.env.current_epoch
            &&& r.commit_delegation_records_spec(dreg, plan) == dreg.records@.push(
                r.new_delegation_record(plan),
            )
        }),
{
    lemma_same_epoch_uses_extra_run(r, st, vreg, dreg, validator_index);
}

/// When the current slot falls below the window threshold, the crank fails
/// with the window-specific error and mutates nothing.
pub proof fn lemma_window_closed_rejects(
    r: StakeReserve,
    st: PoolState,
    vreg: Registry<ValidatorRecord>,
    dreg: Registry<DelegationRecord>,
    validator_index: u32,
)
    requires
        preconditions_hold(r, st, vreg, dreg),
        st.stake_delta_spec(r.reserve_balance) > 0,
        validator_index < vreg.records@.len(),
        r.validator_vote == vreg.records@[validator_index as int].validator_identity,
        !(vreg.records@[validator_index as int].last_stake_delta_epoch == r.env.current_epoch
            && st.extra_stake_delta_runs == 0),
        r.env.current_slot < sat_sub64(
            r.env.epoch_schedule.last_slot_spec(r.env.current_epoch),
            st.slots_for_stake_delta,
        ),
    ensures
        process_result_spec(r, st, vreg, dreg, validator_index) == Err::<StakeOutcome, CrankError>(
            CrankError::StakingOutsideWindow,
        ),
{
}

/// Whenever `process` decides to move funds, the planned amount respects
/// the clamping policy: it never exceeds the pool-wide delta, is never
/// below `min_stake` unless it is the entire delta, and never leaves a
/// remainder in `[1, min_stake)`.
pub proof fn lemma_planned_amount_bounds(
    r: StakeReserve,
    st: PoolState,
    vreg: Registry<ValidatorRecord>,
    dreg: Registry<DelegationRecord>,
    validator_index: u32,
)
    ensures
        (match process_result_spec(r, st, vreg, dreg, validator_index) {
            Ok(StakeOutcome::Stake(plan)) => {
                let delta = st.stake_delta_spec(r.reserve_balance);
                &&& 0 < delta
                &&& plan.amount <= delta
                &&& plan.amount == delta || plan.amount >= st.min_stake
                &&& plan.amount == delta || delta - plan.amount >= st.min_stake
            },
            _ => true,
        }),
{
    if process_result_spec(r, st, vreg, dreg, validator_index) matches Ok(
        StakeOutcome::Stake(plan),
    ) {
        let delta = (r.reserve_balance - st.reserve_floor) as u64;
        let rec = vreg.records@[validator_index as int];
        let target = stake_target_spec(
            rec.target_weight,
            st.total_target_weight,
            sat_add64(st.total_active_balance, delta),
        ) as u64;
        lemma_transfer_amount_bounds(target, rec.active_balance, st.min_stake, delta);
    }
}

/// A corrupt validator registry makes both the decision and the bookkeeping
/// fail with the registry-specific checksum error, before any mutation.
pub proof fn lemma_corrupt_validator_registry_rejected(
    r: StakeReserve,
    st: PoolState,
    vreg: Registry<ValidatorRecord>,
    dreg: Registry<DelegationRecord>,
    validator_index: u32,
)
    requires
        !vreg.accepts(st.validator_registry_checksum),
    ensures
        process_result_spec(r, st, vreg, dreg, validator_index) == Err::<StakeOutcome, CrankError>(
            CrankError::ValidatorRegistryChecksumMismatch,
        ),
        forall|plan: StakePlan|
            r.commit_result_spec(st, vreg, dreg, validator_index, plan) == Err::<(), CrankError>(
                CrankError::ValidatorRegistryChecksumMismatch,
            ),
{
}

/// A corrupt delegation registry makes both the decision and the
/// bookkeeping fail with the registry-specific checksum error, before any
/// mutation.
pub proof fn lemma_corrupt_delegation_registry_rejected(
    r: StakeReserve,
    st: PoolState,
    vreg: Registry<ValidatorRecord>,
    dreg: Registry<DelegationRecord>,
    validator_index: u32,
)
    requires
        vreg.accepts(st.validator_registry_checksum),
        !dreg.accepts(st.delegation_registry_checksum),
    ensures
        process_result_spec(r, st, vreg, dreg, validator_index) == Err::<StakeOutcome, CrankError>(
            CrankError::DelegationRegistryChecksumMismatch,
        ),
        validator_index < vreg.records@.len() ==> forall|plan: StakePlan|
            r.commit_result_spec(st, vreg, dreg, validator_index, plan) == Err::<(), CrankError>(
                CrankError::DelegationRegistryChecksumMismatch,
            ),
{
}

} // verus!

