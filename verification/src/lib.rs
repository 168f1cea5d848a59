//! Rebalancing engine ("the crank") of a pooled-staking service.
//!
//! The library moves undeployed pool funds into active delegations with a
//! fixed set of validators, subject to per-epoch timing windows,
//! per-validator target allocations, and minimum-transfer thresholds.
//! Every function is verified: the decision logic of the crank, the
//! checksummed registries it reads and mutates, and the aggregate
//! bookkeeping of the pool.
//!
//! The external delegation protocol (fund transfer, delegation-account
//! initialization, delegation activation) and the transaction layer that
//! supplies atomicity are collaborators: the host performs those steps
//! between [`engine::StakeReserve::process`], which decides, and
//! [`engine::StakeReserve::commit`], which applies the bookkeeping.

pub mod checksum;
pub mod engine;
pub mod error;
pub mod ident;
pub mod records;
pub mod registry;
pub mod schedule;
pub mod state;
