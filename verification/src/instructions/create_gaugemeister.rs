//! Creates the gaugemeister.

use vstd::prelude::*;
use crate::account::Account;
use crate::casts::i64_to_u64;
use crate::error::ErrorCode;
use crate::locker::Locker;
use crate::pubkey::Pubkey;
use crate::quarry::Operator;
use crate::state::Gaugemeister;

verus! {

/// Accounts for creating a gaugemeister.
#[derive(Clone, Copy, Debug, PartialEq, Eq)]
pub struct CreateGaugemeister {
    /// The gaugemeister to be created.
    pub gaugemeister: Account<Gaugemeister>,
    /// Base.
    pub base: Pubkey,
    /// The operator of the rewarder.
    pub operator: Account<Operator>,
    /// The locker which determines the voting power.
    pub locker: Account<Locker>,
}

/// Record of a created gaugemeister.
#[derive(Clone, Copy, Debug, PartialEq, Eq)]
pub struct GaugemeisterCreateEvent {
    /// The gaugemeister being created.
    pub gaugemeister: Pubkey,
    /// The operator of the rewarder.
    pub operator: Pubkey,
    /// The locker which determines the voting power.
    pub locker: Pubkey,
    /// Account which may enable and disable gauges on the gaugemeister.
    pub foreman: Pubkey,
    /// When the first rewards epoch starts.
    pub first_rewards_epoch: u64,
}

impl CreateGaugemeister {
    /// The gaugemeister that is created: at rewards epoch zero, with the
    /// first epoch starting at `first_epoch_starts_at`.
    pub open spec fn created(
        &self,
        bump: u8,
        foreman: Pubkey,
        epoch_duration_seconds: u32,
        first_epoch_starts_at: u64,
    ) -> Gaugemeister {
        Gaugemeister {
            base: self.base,
            bump,
            rewarder: self.operator.data.rewarder,
            operator: self.operator.key,
            locker: self.locker.key,
            foreman,
            epoch_duration_seconds,
            current_rewards_epoch: 0,
            next_epoch_starts_at: first_epoch_starts_at,
            locker_token_mint: self.locker.data.token_mint,
            locker_governor: self.locker.data.governor,
        }
    }

    /// The record of the creation.
    pub open spec fn creation_event(&self, foreman: Pubkey, first_epoch_starts_at: u64)
        -> GaugemeisterCreateEvent {
        GaugemeisterCreateEvent {
            gaugemeister: self.gaugemeister.key,
            operator: self.operator.key,
            locker: self.locker.key,
            foreman,
            first_rewards_epoch: first_epoch_starts_at,
        }
    }

    /// What creating the gaugemeister at the time `unix_timestamp` does: the
    /// new gaugemeister, or the reason for refusing. It is refused where the
    /// time is negative, and where the first epoch does not start after it.
    pub open spec fn spec_create(
        &self,
        bump: u8,
        foreman: Pubkey,
        epoch_duration_seconds: u32,
        first_epoch_starts_at: u64,
        unix_timestamp: i64,
    ) -> Result<Gaugemeister, ErrorCode> {
        if unix_timestamp < 0 {
            Err(ErrorCode::IntegerOverflow)
        } else if unix_timestamp >= first_epoch_starts_at {
            Err(ErrorCode::InvariantFailed)
        } else {
            Ok(self.created(bump, foreman, epoch_duration_seconds, first_epoch_starts_at))
        }
    }

    /// Checks the accounts: any will do.
    pub fn validate(&self) -> (result: Result<(), ErrorCode>)
        ensures
            result == Ok::<(), ErrorCode>(()),
    {
        Ok(())
    }
}

/// Creates the gaugemeister in `accounts`, at the time `unix_timestamp` in
/// seconds since the Unix epoch.
pub fn handler(
    accounts: &mut CreateGaugemeister,
    bump: u8,
    foreman: Pubkey,
    epoch_duration_seconds: u32,
    first_epoch_starts_at: u64,
    unix_timestamp: i64,
) -> (result: Result<GaugemeisterCreateEvent, ErrorCode>)
    ensures
        match old(accounts).spec_create(
            bump,
            foreman,
            epoch_duration_seconds,
            first_epoch_starts_at,
            unix_timestamp,
        ) {
            Ok(gaugemeister) => {
                &&& result == Ok::<_, ErrorCode>(
                    old(accounts).creation_event(foreman, first_epoch_starts_at),
                )
                &&& *final(accounts) == (CreateGaugemeister {
                    gaugemeister: Account { key: old(accounts).gaugemeister.key, data: gaugemeister },
                    ..*old(accounts)
                })
            },
            Err(code) => result == Err::<GaugemeisterCreateEvent, _>(code) && *final(accounts)
                == *old(accounts),
        },
{
    let now = match i64_to_u64(unix_timestamp) {
        Some(now) => now,
        None => return Err(ErrorCode::IntegerOverflow),
    };
    if now >= first_epoch_starts_at {
        return Err(ErrorCode::InvariantFailed);
    }
    accounts.gaugemeister.data = Gaugemeister {
        base: accounts.base,
        bump,
        rewarder: accounts.operator.data.rewarder,
        operator: accounts.operator.key,
        locker: accounts.locker.key,
        foreman,
        epoch_duration_seconds,
        current_rewards_epoch: 0,
        next_epoch_starts_at: first_epoch_starts_at,
        locker_token_mint: accounts.locker.data.token_mint,
        locker_governor: accounts.locker.data.governor,
    };
    Ok(
        GaugemeisterCreateEvent {
            gaugemeister: accounts.gaugemeister.key,
            operator: accounts.operator.key,
            locker: accounts.locker.key,
            foreman,
            first_rewards_epoch: first_epoch_starts_at,
        },
    )
}

} // verus!
