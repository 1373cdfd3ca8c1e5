//! Creates an epoch gauge.

use vstd::prelude::*;
use crate::account::Account;
use crate::error::ErrorCode;
use crate::state::{EpochGauge, Gauge};

verus! {

/// Accounts for creating an epoch gauge.
#[derive(Clone, Copy, Debug, PartialEq, Eq)]
pub struct CreateEpochGauge {
    /// The gauge to create an epoch gauge of.
    pub gauge: Account<Gauge>,
    /// The epoch gauge to be created.
    pub epoch_gauge: Account<EpochGauge>,
}

impl CreateEpochGauge {
    /// Checks the accounts: any will do.
    pub fn validate(&self) -> (result: Result<(), ErrorCode>)
        ensures
            result == Ok::<(), ErrorCode>(()),
    {
        Ok(())
    }

    /// The epoch gauge that is created: of the gauge and the epoch, with no
    /// power committed.
    pub open spec fn created(&self, voting_epoch: u32) -> EpochGauge {
        EpochGauge { gauge: self.gauge.key, voting_epoch, total_power: 0 }
    }
}

/// Creates the epoch gauge in `accounts` for the epoch `voting_epoch`.
pub fn handler(accounts: &mut CreateEpochGauge, _bump: u8, voting_epoch: u32) -> (result: Result<
    (),
    ErrorCode,
>)
    ensures
        result == Ok::<(), ErrorCode>(()),
        *final(accounts) == (CreateEpochGauge {
            epoch_gauge: Account {
                key: old(accounts).epoch_gauge.key,
                data: old(accounts).created(voting_epoch),
            },
            ..*old(accounts)
        }),
{
    accounts.epoch_gauge.data = EpochGauge {
        gauge: accounts.gauge.key,
        voting_epoch,
        total_power: 0,
    };
    Ok(())
}

} // verus!
