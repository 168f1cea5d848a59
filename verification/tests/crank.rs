//! End-to-end scenarios for the crank: soft no-ops, the epoch and window
//! policies, the clamping of the transferred amount, and the bookkeeping
//! applied on success.

use stake_reserve::engine::{CrankEnv, SlotState, StakeOutcome, StakePlan, StakeReserve};
use stake_reserve::error::CrankError;
use stake_reserve::ident::Identity;
use stake_reserve::records::ValidatorRecord;
use stake_reserve::registry::Registry;
use stake_reserve::schedule::EpochSchedule;
use stake_reserve::state::PoolState;

fn id(n: u64) -> Identity {
    Identity::new(n, 0, n ^ 0xabc, n + 7)
}

fn validator(n: u64, active: u64, weight: u64, last_epoch: u64) -> ValidatorRecord {
    ValidatorRecord {
        validator_identity: id(n),
        active_balance: active,
        target_weight: weight,
        last_stake_delta_epoch: last_epoch,
    }
}

fn setup_validators(recs: &[ValidatorRecord]) -> (Registry<ValidatorRecord>, u64) {
    let mut reg = Registry::new(8);
    let mut expected: u64 = 0;
    for r in recs {
        expected = reg.add(expected, *r).unwrap();
    }
    (reg, expected)
}

fn base_state(vchk: u64, dchk: u64, total_active: u64, total_weight: u64) -> PoolState {
    PoolState {
        reserve_authority_key: id(100),
        delegation_authority_key: id(101),
        min_stake: 1_000_000,
        extra_stake_delta_runs: 0,
        slots_for_stake_delta: 100,
        last_stake_delta_epoch: 0,
        total_active_balance: total_active,
        total_target_weight: total_weight,
        reserve_floor: 10_000_000,
        available_reserve_balance: 5_000_000,
        validator_registry_checksum: vchk,
        delegation_registry_checksum: dchk,
    }
}

/// The plan a test expects: the pool's recorded authorities always ride
/// along.
fn plan(amount: u64, consume_extra_run: bool) -> StakePlan {
    StakePlan {
        amount,
        consume_extra_run,
        reserve_authority: id(100),
        delegation_authority: id(101),
    }
}

/// Epoch 5 under this schedule ends at slot 5999, so with a window width of
/// 100 the threshold is 5899; slot 5950 is inside the window.
fn crank(vote: Identity) -> StakeReserve {
    StakeReserve {
        env: CrankEnv {
            current_epoch: 5,
            current_slot: 5950,
            epoch_schedule: EpochSchedule {
                slots_per_epoch: 1000,
                first_normal_epoch: 0,
                first_normal_slot: 0,
            },
            slot_rent_exempt_minimum: 2_282_880,
            stake_history_id: id(200),
        },
        stake_history: id(200),
        slot_state: SlotState::Uninitialized,
        slot_balance: 2_282_880,
        slot_identity: id(77),
        validator_vote: vote,
        reserve_balance: 15_000_000,
    }
}

#[test]
fn zero_delta_is_soft_noop() {
    let (vreg, vchk) = setup_validators(&[validator(1, 0, 1, 0), validator(2, 0, 1, 0)]);
    let dreg: Registry<stake_reserve::records::DelegationRecord> = Registry::new(8);
    let st = base_state(vchk, dreg.checksum, 0, 2);
    let before = st;
    let mut r = crank(id(1));
    r.reserve_balance = st.reserve_floor; // stake_delta == 0
    assert_eq!(
        r.process(&st, &vreg, &dreg, 0),
        Ok(StakeOutcome::NothingToDeploy)
    );
    assert_eq!(st, before);
}

#[test]
fn negative_delta_is_soft_noop() {
    let (vreg, vchk) = setup_validators(&[validator(1, 0, 1, 0)]);
    let dreg: Registry<stake_reserve::records::DelegationRecord> = Registry::new(8);
    let st = base_state(vchk, dreg.checksum, 0, 1);
    let before = st;
    let mut r = crank(id(1));
    r.reserve_balance = st.reserve_floor - 1; // stake_delta < 0: unstake territory
    assert_eq!(
        r.process(&st, &vreg, &dreg, 0),
        Ok(StakeOutcome::NothingToDeploy)
    );
    assert_eq!(st, before);
}

#[test]
fn shortfall_within_delta_is_respected() {
    // stake_delta = 5_000_000; weights 1 and 1, no active stake, so the
    // target is 2_500_000 and the shortfall is transferred exactly.
    let (vreg, vchk) = setup_validators(&[validator(1, 0, 1, 0), validator(2, 0, 1, 0)]);
    let dreg = Registry::new(8);
    let st = base_state(vchk, dreg.checksum, 0, 2);
    let r = crank(id(1));
    assert_eq!(
        r.process(&st, &vreg, &dreg, 0),
        Ok(StakeOutcome::Stake(plan(2_500_000, false)))
    );
}

#[test]
fn small_remainder_takes_entire_delta() {
    // weights 24 and 1: the target is 24/25 of 5_000_000 = 4_800_000, and
    // the remainder 200_000 is below min_stake, so the whole delta moves.
    let (vreg, vchk) = setup_validators(&[validator(1, 0, 24, 0), validator(2, 0, 1, 0)]);
    let dreg = Registry::new(8);
    let st = base_state(vchk, dreg.checksum, 0, 25);
    let r = crank(id(1));
    assert_eq!(
        r.process(&st, &vreg, &dreg, 0),
        Ok(StakeOutcome::Stake(plan(5_000_000, false)))
    );
}

#[test]
fn tiny_shortfall_is_floored_at_min_stake() {
    // One validator at 2_300_000: total target = 7_300_000, per validator
    // 3_650_000, shortfall 1_350_000 >= min_stake, remainder fine.
    let (vreg, vchk) =
        setup_validators(&[validator(1, 2_300_000, 1, 0), validator(2, 0, 1, 0)]);
    let dreg = Registry::new(8);
    let st = base_state(vchk, dreg.checksum, 2_300_000, 2);
    let r = crank(id(1));
    assert_eq!(
        r.process(&st, &vreg, &dreg, 0),
        Ok(StakeOutcome::Stake(plan(1_350_000, false)))
    );
}

#[test]
fn plan_carries_the_pool_authorities() {
    let (vreg, vchk) = setup_validators(&[validator(1, 0, 1, 0), validator(2, 0, 1, 0)]);
    let dreg = Registry::new(8);
    let mut st = base_state(vchk, dreg.checksum, 0, 2);
    st.reserve_authority_key = id(500);
    st.delegation_authority_key = id(501);
    let r = crank(id(1));
    match r.process(&st, &vreg, &dreg, 0) {
        Ok(StakeOutcome::Stake(p)) => {
            assert_eq!(p.reserve_authority, id(500));
            assert_eq!(p.delegation_authority, id(501));
        },
        other => panic!("expected a stake plan, got {:?}", other),
    }
}

#[test]
fn commit_updates_both_registries_and_totals() {
    let (mut vreg, vchk) = setup_validators(&[validator(1, 0, 1, 0), validator(2, 0, 1, 0)]);
    let mut dreg = Registry::new(8);
    let mut st = base_state(vchk, dreg.checksum, 0, 2);
    let r = crank(id(1));
    let p = match r.process(&st, &vreg, &dreg, 0) {
        Ok(StakeOutcome::Stake(p)) => p,
        other => panic!("expected a stake plan, got {:?}", other),
    };
    let total_before = st.total_active_balance;
    let available_before = st.available_reserve_balance;
    assert_eq!(r.commit(&mut st, &mut vreg, &mut dreg, 0, p), Ok(()));
    // no double counting: both totals move by exactly the amount
    assert_eq!(st.total_active_balance, total_before + p.amount);
    assert_eq!(vreg.records[0].active_balance, p.amount);
    assert_eq!(vreg.records[0].last_stake_delta_epoch, 5);
    assert_eq!(vreg.records[1].active_balance, 0);
    assert_eq!(st.last_stake_delta_epoch, 5);
    assert_eq!(st.available_reserve_balance, available_before - p.amount);
    // the delegation record was appended for the supplied slot
    assert_eq!(dreg.records.len(), 1);
    assert_eq!(dreg.records[0].delegation_account_identity, id(77));
    assert_eq!(dreg.records[0].amount, p.amount);
    assert_eq!(dreg.records[0].created_epoch, 5);
    assert_eq!(dreg.records[0].is_emergency_unstaking, 0);
    // the pool now expects the updated registries
    assert_eq!(st.validator_registry_checksum, vreg.checksum);
    assert_eq!(st.delegation_registry_checksum, dreg.checksum);
}

#[test]
fn double_action_blocked_without_extra_runs() {
    let (mut vreg, vchk) = setup_validators(&[validator(1, 0, 1, 0), validator(2, 0, 1, 0)]);
    let mut dreg = Registry::new(8);
    let mut st = base_state(vchk, dreg.checksum, 0, 2);
    let r = crank(id(1));
    let p = match r.process(&st, &vreg, &dreg, 0) {
        Ok(StakeOutcome::Stake(p)) => p,
        other => panic!("expected a stake plan, got {:?}", other),
    };
    r.commit(&mut st, &mut vreg, &mut dreg, 0, p).unwrap();
    let before = st;
    let records_before = vreg.records.clone();
    // second call, same validator, same epoch, no extra runs
    assert_eq!(
        r.process(&st, &vreg, &dreg, 0),
        Ok(StakeOutcome::DoubleActionBlocked)
    );
    assert_eq!(st, before);
    assert_eq!(vreg.records, records_before);
}

#[test]
fn extra_run_permits_second_action_and_is_spent() {
    let (mut vreg, vchk) = setup_validators(&[validator(1, 0, 1, 0), validator(2, 0, 1, 0)]);
    let mut dreg = Registry::new(8);
    let mut st = base_state(vchk, dreg.checksum, 0, 2);
    st.extra_stake_delta_runs = 1;
    let mut r = crank(id(1));
    let p = match r.process(&st, &vreg, &dreg, 0) {
        Ok(StakeOutcome::Stake(p)) => p,
        other => panic!("expected a stake plan, got {:?}", other),
    };
    assert!(!p.consume_extra_run); // first action this epoch
    r.commit(&mut st, &mut vreg, &mut dreg, 0, p).unwrap();
    assert_eq!(st.extra_stake_delta_runs, 1);
    // more funds arrive; the same validator is cranked again this epoch
    r.reserve_balance = st.reserve_floor + 9_000_000;
    st.available_reserve_balance = 9_000_000;
    let p2 = match r.process(&st, &vreg, &dreg, 0) {
        Ok(StakeOutcome::Stake(p2)) => p2,
        other => panic!("expected a second stake plan, got {:?}", other),
    };
    assert!(p2.consume_extra_run);
    r.commit(&mut st, &mut vreg, &mut dreg, 0, p2).unwrap();
    assert_eq!(st.extra_stake_delta_runs, 0);
}

#[test]
fn at_target_is_soft_noop() {
    // total target = 5_000_000 + 5_000_000; validator 0's half is exactly
    // covered by its active balance, so there is nothing to stake there
    let (vreg, vchk) =
        setup_validators(&[validator(1, 5_000_000, 1, 0), validator(2, 0, 1, 0)]);
    let dreg = Registry::new(8);
    let st = base_state(vchk, dreg.checksum, 5_000_000, 2);
    let before = st;
    let r = crank(id(1));
    assert_eq!(
        r.process(&st, &vreg, &dreg, 0),
        Ok(StakeOutcome::AlreadyAtTarget)
    );
    assert_eq!(st, before);
}

#[test]
fn at_target_same_epoch_leaves_extra_run_unspent() {
    // same epoch, one extra run, validator already at target: a soft no-op
    // performs no action, so it spends nothing
    let (vreg, vchk) =
        setup_validators(&[validator(1, 6_000_000, 1, 5), validator(2, 0, 1, 0)]);
    let dreg = Registry::new(8);
    let mut st = base_state(vchk, dreg.checksum, 6_000_000, 2);
    st.extra_stake_delta_runs = 1;
    let before = st;
    let r = crank(id(1));
    assert_eq!(
        r.process(&st, &vreg, &dreg, 0),
        Ok(StakeOutcome::AlreadyAtTarget)
    );
    assert_eq!(st, before);
    assert_eq!(st.extra_stake_delta_runs, 1);
}

#[test]
fn window_closed_is_window_specific_error() {
    let (vreg, vchk) = setup_validators(&[validator(1, 0, 1, 0), validator(2, 0, 1, 0)]);
    let dreg = Registry::new(8);
    let st = base_state(vchk, dreg.checksum, 0, 2);
    let before = st;
    let mut r = crank(id(1));
    r.env.current_slot = 5898; // threshold is 5999 - 100 = 5899
    assert_eq!(
        r.process(&st, &vreg, &dreg, 0),
        Err(CrankError::StakingOutsideWindow)
    );
    assert_eq!(st, before);
    let mut r2 = crank(id(1));
    r2.env.current_slot = 5899; // exactly on the threshold: allowed
    assert!(matches!(
        r2.process(&st, &vreg, &dreg, 0),
        Ok(StakeOutcome::Stake(_))
    ));
}

#[test]
fn wrong_validator_identity_is_rejected() {
    let (vreg, vchk) = setup_validators(&[validator(1, 0, 1, 0), validator(2, 0, 1, 0)]);
    let dreg = Registry::new(8);
    let st = base_state(vchk, dreg.checksum, 0, 2);
    let r = crank(id(2)); // vote identity of validator 1, index 0
    assert_eq!(
        r.process(&st, &vreg, &dreg, 0),
        Err(CrankError::WrongValidatorIdentity)
    );
}

#[test]
fn validator_index_out_of_range_is_rejected() {
    let (vreg, vchk) = setup_validators(&[validator(1, 0, 1, 0)]);
    let dreg = Registry::new(8);
    let st = base_state(vchk, dreg.checksum, 0, 1);
    let r = crank(id(1));
    assert_eq!(
        r.process(&st, &vreg, &dreg, 3),
        Err(CrankError::ValidatorIndexOutOfRange)
    );
}

#[test]
fn wrong_stake_history_is_rejected() {
    let (vreg, vchk) = setup_validators(&[validator(1, 0, 1, 0)]);
    let dreg = Registry::new(8);
    let st = base_state(vchk, dreg.checksum, 0, 1);
    let mut r = crank(id(1));
    r.stake_history = id(201);
    assert_eq!(
        r.process(&st, &vreg, &dreg, 0),
        Err(CrankError::WrongStakeHistoryAccount)
    );
    assert!(r.check_stake_history().is_err());
}

#[test]
fn slot_must_be_uninitialized() {
    let (vreg, vchk) = setup_validators(&[validator(1, 0, 1, 0)]);
    let dreg = Registry::new(8);
    let st = base_state(vchk, dreg.checksum, 0, 1);
    let mut r = crank(id(1));
    r.slot_state = SlotState::Initialized;
    assert_eq!(
        r.process(&st, &vreg, &dreg, 0),
        Err(CrankError::SlotNotUninitialized)
    );
}

#[test]
fn slot_balance_must_be_exactly_rent_exempt_minimum() {
    let (vreg, vchk) = setup_validators(&[validator(1, 0, 1, 0)]);
    let dreg = Registry::new(8);
    let st = base_state(vchk, dreg.checksum, 0, 1);
    let mut r = crank(id(1));
    r.slot_balance = r.env.slot_rent_exempt_minimum + 1; // not more, not less
    assert_eq!(
        r.process(&st, &vreg, &dreg, 0),
        Err(CrankError::WrongSlotBalance)
    );
}

#[test]
fn corrupt_validator_registry_rejects_everything() {
    let (mut vreg, vchk) = setup_validators(&[validator(1, 0, 1, 0)]);
    let mut dreg = Registry::new(8);
    let mut st = base_state(vchk, dreg.checksum, 0, 1);
    vreg.checksum ^= 1; // corrupt the header
    let before = st;
    let r = crank(id(1));
    assert_eq!(
        r.process(&st, &vreg, &dreg, 0),
        Err(CrankError::ValidatorRegistryChecksumMismatch)
    );
    assert_eq!(st, before);
    assert_eq!(
        r.commit(&mut st, &mut vreg, &mut dreg, 0, plan(1, false)),
        Err(CrankError::ValidatorRegistryChecksumMismatch)
    );
    assert_eq!(st, before);
    assert_eq!(dreg.records.len(), 0);
}

#[test]
fn corrupt_delegation_registry_rejects_everything() {
    let (mut vreg, vchk) = setup_validators(&[validator(1, 0, 1, 0)]);
    let mut dreg: Registry<stake_reserve::records::DelegationRecord> = Registry::new(8);
    dreg.checksum ^= 0xdead;
    let mut st = base_state(vchk, 0, 0, 1);
    let before = st;
    let r = crank(id(1));
    assert_eq!(
        r.process(&st, &vreg, &dreg, 0),
        Err(CrankError::DelegationRegistryChecksumMismatch)
    );
    assert_eq!(st, before);
    assert_eq!(
        r.commit(&mut st, &mut vreg, &mut dreg, 0, plan(1, false)),
        Err(CrankError::DelegationRegistryChecksumMismatch)
    );
    assert_eq!(st, before);
    assert_eq!(vreg.records[0].active_balance, 0);
}

#[test]
fn commit_rejects_overdraw_and_full_registry() {
    let (mut vreg, vchk) = setup_validators(&[validator(1, 0, 1, 0)]);
    let mut dreg = Registry::new(0); // no room for any delegation
    let mut st = base_state(vchk, dreg.checksum, 0, 1);
    let r = crank(id(1));
    assert_eq!(
        r.commit(&mut st, &mut vreg, &mut dreg, 0, plan(1, false)),
        Err(CrankError::DelegationRegistryFull)
    );
    let mut dreg = Registry::new(8);
    st.delegation_registry_checksum = dreg.checksum;
    let over = st.available_reserve_balance + 1;
    assert_eq!(
        r.commit(&mut st, &mut vreg, &mut dreg, 0, plan(over, false)),
        Err(CrankError::CalculationFailure)
    );
    // spending a run the pool does not have is a calculation failure too
    assert_eq!(
        r.commit(&mut st, &mut vreg, &mut dreg, 0, plan(1, true)),
        Err(CrankError::CalculationFailure)
    );
}

#[test]
fn commit_rejects_balance_overflow() {
    let (mut vreg, vchk) = setup_validators(&[validator(1, u64::MAX - 10, 1, 0)]);
    let mut dreg = Registry::new(8);
    let mut st = base_state(vchk, dreg.checksum, u64::MAX - 10, 1);
    st.available_reserve_balance = 5_000_000;
    let r = crank(id(1));
    let before_records = vreg.records.clone();
    assert_eq!(
        r.commit(&mut st, &mut vreg, &mut dreg, 0, plan(100, false)),
        Err(CrankError::CalculationFailure)
    );
    assert_eq!(vreg.records, before_records);
    assert_eq!(dreg.records.len(), 0);
}
