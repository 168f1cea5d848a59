//! The epoch schedule: mapping epochs to their first and last slots.
//!
//! Early epochs warm up with doubling lengths starting from a fixed minimum;
//! from `first_normal_epoch` on, every epoch is `slots_per_epoch` slots long.
//! All computations saturate at the largest representable slot rather than
//! wrap, so the schedule is total over every parameter combination.

use vstd::prelude::*;

verus! {

/// Length of the very first (warm-up) epoch, in slots.
pub const MINIMUM_SLOTS_PER_EPOCH: u64 = 32;

/// 2 to the power `e`.
pub open spec fn pow2(e: nat) -> int
    decreases e,
{
    if e == 0 {
        1
    } else {
        2 * pow2((e - 1) as nat)
    }
}

pub proof fn lemma_pow2_pos(e: nat)
    ensures
        pow2(e) >= 1,
    decreases e,
{
    if e > 0 {
        lemma_pow2_pos((e - 1) as nat);
    }
}

/// Clamps a mathematical slot count into the representable range.
pub open spec fn sat64(x: int) -> u64 {
    if x >= u64::MAX {
        u64::MAX
    } else if x <= 0 {
        0
    } else {
        x as u64
    }
}

/// `2^e` capped at the largest representable value.
fn pow2_capped(e: u64) -> (r: u64)
    ensures
        pow2(e as nat) <= u64::MAX ==> r == pow2(e as nat),
        pow2(e as nat) > u64::MAX ==> r == u64::MAX,
{
    let mut i: u64 = 0;
    let mut p: u64 = 1;
    while i < e
        invariant
            i <= e,
            p == pow2(i as nat) || (p == u64::MAX && pow2(i as nat) > u64::MAX),
        decreases e - i,
    {
        proof {
            lemma_pow2_pos(i as nat);
        }
        match p.checked_mul(2) {
            Some(q) => {
                p = q;
            },
            None => {
                p = u64::MAX;
            },
        }
        i = i + 1;
    }
    p
}

/// Parameters of the pool's epoch schedule, supplied by the environment at
/// call time.
#[derive(Clone, Copy, Debug, PartialEq, Eq, Structural)]
pub struct EpochSchedule {
    /// Length of every post-warm-up epoch, in slots.
    pub slots_per_epoch: u64,
    /// First epoch of full length.
    pub first_normal_epoch: u64,
    /// First slot of `first_normal_epoch`.
    pub first_normal_slot: u64,
}

impl EpochSchedule {
    /// The first slot of `epoch`: doubling warm-up epochs before
    /// `first_normal_epoch`, uniform length after.
    pub open spec fn first_slot_spec(self, epoch: int) -> u64 {
        if epoch <= self.first_normal_epoch {
            sat64(MINIMUM_SLOTS_PER_EPOCH * (pow2(epoch as nat) - 1))
        } else {
            sat64(
                (epoch - self.first_normal_epoch) * self.slots_per_epoch
                    + self.first_normal_slot,
            )
        }
    }

    /// The last slot of `epoch`: one before the first slot of the next
    /// epoch, clamped so that degenerate parameter choices never wrap.
    pub open spec fn last_slot_spec(self, epoch: u64) -> u64 {
        if epoch == u64::MAX {
            u64::MAX
        } else {
            let fs = self.first_slot_spec(epoch + 1);
            if fs == 0 {
                0
            } else {
                (fs - 1) as u64
            }
        }
    }

    pub fn get_first_slot_in_epoch(&self, epoch: u64) -> (r: u64)
        ensures
            r == self.first_slot_spec(epoch as int),
    {
        if epoch <= self.first_normal_epoch {
            let p = pow2_capped(epoch);
            proof {
                lemma_pow2_pos(epoch as nat);
            }
            if p == u64::MAX {
                // 32 * (2^epoch - 1) is far beyond the representable range
                // whether or not 2^epoch itself is.
                u64::MAX
            } else {
                match (p - 1).checked_mul(MINIMUM_SLOTS_PER_EPOCH) {
                    Some(v) => v,
                    None => u64::MAX,
                }
            }
        } else {
            let diff = epoch - self.first_normal_epoch;
            match diff.checked_mul(self.slots_per_epoch) {
                Some(x) => match x.checked_add(self.first_normal_slot) {
                    Some(y) => y,
                    None => u64::MAX,
                },
                None => u64::MAX,
            }
        }
    }

    pub fn get_last_slot_in_epoch(&self, epoch: u64) -> (r: u64)
        ensures
            r == self.last_slot_spec(epoch),
    {
        if epoch == u64::MAX {
            return u64::MAX;
        }
        let fs = self.get_first_slot_in_epoch(epoch + 1);
        if fs == 0 {
            0
        } else {
            fs - 1
        }
    }
}

} // verus!
