//! Sets new parameters on the gaugemeister.

use vstd::prelude::*;
use crate::account::Account;
use crate::error::ErrorCode;
use crate::pubkey::Pubkey;
use crate::state::Gaugemeister;

verus! {

/// Accounts for setting new parameters on the gaugemeister.
#[derive(Clone, Copy, Debug, PartialEq, Eq)]
pub struct SetGaugemeisterParams {
    /// The gaugemeister.
    pub gaugemeister: Account<Gaugemeister>,
    /// The account that asks for it.
    pub foreman: Pubkey,
}

/// Record of new parameters of a gaugemeister.
#[derive(Clone, Copy, Debug, PartialEq, Eq)]
pub struct SetGaugemeisterParamsEvent {
    /// The gaugemeister.
    pub gaugemeister: Pubkey,
    /// The foreman before.
    pub prev_foreman: Pubkey,
    /// The foreman now.
    pub new_foreman: Pubkey,
    /// The epoch duration before, in seconds.
    pub prev_epoch_duration_seconds: u32,
    /// The epoch duration now, in seconds.
    pub new_epoch_duration_seconds: u32,
}

impl SetGaugemeisterParams {
    /// Whether the parameters may be set: the gaugemeister's foreman asks.
    pub open spec fn spec_validate(&self) -> Result<(), ErrorCode> {
        if self.foreman == self.gaugemeister.data.foreman {
            Ok(())
        } else {
            Err(ErrorCode::UnauthorizedNotForeman)
        }
    }

    /// Checks that the parameters may be set by the one who asks.
    pub fn validate(&self) -> (result: Result<(), ErrorCode>)
        ensures
            result == self.spec_validate(),
    {
        if self.foreman != self.gaugemeister.data.foreman {
            return Err(ErrorCode::UnauthorizedNotForeman);
        }
        Ok(())
    }
}

/// Sets the epoch duration and the foreman of the gaugemeister in `accounts`.
pub fn handler(
    accounts: &mut SetGaugemeisterParams,
    new_epoch_duration_seconds: u32,
    new_foreman: Pubkey,
) -> (result: Result<SetGaugemeisterParamsEvent, ErrorCode>)
    ensures
        result == Ok::<_, ErrorCode>(
            (SetGaugemeisterParamsEvent {
                gaugemeister: old(accounts).gaugemeister.key,
                prev_foreman: old(accounts).gaugemeister.data.foreman,
                new_foreman,
                prev_epoch_duration_seconds: old(accounts).gaugemeister.data.epoch_duration_seconds,
                new_epoch_duration_seconds,
            }),
        ),
        *final(accounts) == (SetGaugemeisterParams {
            gaugemeister: Account {
                key: old(accounts).gaugemeister.key,
                data: Gaugemeister {
                    epoch_duration_seconds: new_epoch_duration_seconds,
                    foreman: new_foreman,
                    ..old(accounts).gaugemeister.data
                },
            },
            ..*old(accounts)
        }),
{
    let prev_foreman = accounts.gaugemeister.data.foreman;
    let prev_epoch_duration_seconds = accounts.gaugemeister.data.epoch_duration_seconds;
    accounts.gaugemeister.data.epoch_duration_seconds = new_epoch_duration_seconds;
    accounts.gaugemeister.data.foreman = new_foreman;
    Ok(
        SetGaugemeisterParamsEvent {
            gaugemeister: accounts.gaugemeister.key,
            prev_foreman,
            new_foreman,
            prev_epoch_duration_seconds,
            new_epoch_duration_seconds,
        },
    )
}

} // verus!
