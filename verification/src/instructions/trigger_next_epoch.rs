//! Triggers the next epoch.

use vstd::prelude::*;
use crate::account::Account;
use crate::casts::i64_to_u64;
use crate::error::ErrorCode;
use crate::pubkey::Pubkey;
use crate::state::Gaugemeister;

verus! {

/// Accounts for triggering the next epoch.
#[derive(Clone, Copy, Debug, PartialEq, Eq)]
pub struct TriggerNextEpoch {
    /// The gaugemeister.
    pub gaugemeister: Account<Gaugemeister>,
}

/// Record of an epoch that began.
#[derive(Clone, Copy, Debug, PartialEq, Eq)]
pub struct TriggerNextEpochEvent {
    /// The gaugemeister.
    pub gaugemeister: Pubkey,
    /// The rewards epoch that began.
    pub current_rewards_epoch: u32,
    /// When the epoch after it starts.
    pub next_epoch_starts_at: u64,
}

impl TriggerNextEpoch {
    /// Whether the next epoch may begin at the time `unix_timestamp`: the
    /// time is not negative, and the start of the next epoch is reached.
    pub open spec fn spec_validate(&self, unix_timestamp: i64) -> Result<(), ErrorCode> {
        if unix_timestamp < 0 {
            Err(ErrorCode::IntegerOverflow)
        } else if unix_timestamp < self.gaugemeister.data.next_epoch_starts_at {
            Err(ErrorCode::NextEpochNotReached)
        } else {
            Ok(())
        }
    }

    /// Checks that the next epoch may begin at the time `unix_timestamp`, in
    /// seconds since the Unix epoch.
    pub fn validate(&self, unix_timestamp: i64) -> (result: Result<(), ErrorCode>)
        ensures
            result == self.spec_validate(unix_timestamp),
    {
        let now = match i64_to_u64(unix_timestamp) {
            Some(now) => now,
            None => return Err(ErrorCode::IntegerOverflow),
        };
        if now < self.gaugemeister.data.next_epoch_starts_at {
            return Err(ErrorCode::NextEpochNotReached);
        }
        Ok(())
    }

    /// The gaugemeister once the next epoch has begun: the rewards epoch is
    /// one higher, and the epoch after it starts one epoch duration after
    /// the start that was scheduled, whenever the epoch was triggered.
    /// Nothing where either number exceeds its range.
    pub open spec fn advanced(&self) -> Option<Gaugemeister> {
        let gaugemeister = self.gaugemeister.data;
        if gaugemeister.current_rewards_epoch + 1 > u32::MAX || gaugemeister.next_epoch_starts_at
            + gaugemeister.epoch_duration_seconds > u64::MAX {
            None
        } else {
            Some(
                Gaugemeister {
                    current_rewards_epoch: (gaugemeister.current_rewards_epoch + 1) as u32,
                    next_epoch_starts_at: (gaugemeister.next_epoch_starts_at
                        + gaugemeister.epoch_duration_seconds) as u64,
                    ..gaugemeister
                },
            )
        }
    }
}

/// Begins the next epoch of the gaugemeister in `accounts`.
pub fn handler(accounts: &mut TriggerNextEpoch) -> (result: Result<
    TriggerNextEpochEvent,
    ErrorCode,
>)
    ensures
        match old(accounts).advanced() {
            Some(gaugemeister) => {
                &&& result == Ok::<_, ErrorCode>(
                    (TriggerNextEpochEvent {
                        gaugemeister: old(accounts).gaugemeister.key,
                        current_rewards_epoch: gaugemeister.current_rewards_epoch,
                        next_epoch_starts_at: gaugemeister.next_epoch_starts_at,
                    }),
                )
                &&& *final(accounts) == (TriggerNextEpoch {
                    gaugemeister: Account { key: old(accounts).gaugemeister.key, data: gaugemeister },
                })
            },
            None => result == Err::<TriggerNextEpochEvent, _>(ErrorCode::IntegerOverflow)
                && *final(accounts) == *old(accounts),
        },
{
    let current_rewards_epoch = match accounts.gaugemeister.data.current_rewards_epoch.checked_add(
        1,
    ) {
        Some(epoch) => epoch,
        None => return Err(ErrorCode::IntegerOverflow),
    };
    let next_epoch_starts_at = match accounts.gaugemeister.data.next_epoch_starts_at.checked_add(
        accounts.gaugemeister.data.epoch_duration_seconds as u64,
    ) {
        Some(starts_at) => starts_at,
        None => return Err(ErrorCode::IntegerOverflow),
    };
    accounts.gaugemeister.data.current_rewards_epoch = current_rewards_epoch;
    accounts.gaugemeister.data.next_epoch_starts_at = next_epoch_starts_at;
    Ok(
        TriggerNextEpochEvent {
            gaugemeister: accounts.gaugemeister.key,
            current_rewards_epoch,
            next_epoch_starts_at,
        },
    )
}

} // verus!
