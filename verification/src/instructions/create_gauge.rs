//! Creates a gauge.

use vstd::prelude::*;
use crate::account::Account;
use crate::error::ErrorCode;
use crate::pubkey::Pubkey;
use crate::quarry::Quarry;
use crate::state::{Gauge, Gaugemeister};

verus! {

/// Accounts for creating a gauge.
#[derive(Clone, Copy, Debug, PartialEq, Eq)]
pub struct CreateGauge {
    /// The gauge to be created.
    pub gauge: Account<Gauge>,
    /// The gaugemeister.
    pub gaugemeister: Account<Gaugemeister>,
    /// The quarry that the gauge directs rewards to.
    pub quarry: Account<Quarry>,
}

/// Record of a created gauge. A gauge is created for a quarry, by anyone and
/// for no voter, so the record names no voter.
#[derive(Clone, Copy, Debug, PartialEq, Eq)]
pub struct GaugeCreateEvent {
    /// The gaugemeister.
    pub gaugemeister: Pubkey,
    /// The rewarder.
    pub rewarder: Pubkey,
    /// The quarry being voted on.
    pub quarry: Pubkey,
}

impl CreateGauge {
    /// Whether the gauge may be created: the quarry is of the gaugemeister's
    /// rewarder.
    pub open spec fn spec_validate(&self) -> Result<(), ErrorCode> {
        if self.gaugemeister.data.rewarder == self.quarry.data.rewarder {
            Ok(())
        } else {
            Err(ErrorCode::KeyMismatch)
        }
    }

    /// Checks that the gauge may be created.
    pub fn validate(&self) -> (result: Result<(), ErrorCode>)
        ensures
            result == self.spec_validate(),
    {
        if self.gaugemeister.data.rewarder != self.quarry.data.rewarder {
            return Err(ErrorCode::KeyMismatch);
        }
        Ok(())
    }

    /// The gauge that is created: of the gaugemeister and the quarry, and
    /// disabled, since anyone may create one.
    pub open spec fn created(&self) -> Gauge {
        Gauge { gaugemeister: self.gaugemeister.key, quarry: self.quarry.key, is_disabled: true }
    }

    /// The record of the creation.
    pub open spec fn creation_event(&self) -> GaugeCreateEvent {
        GaugeCreateEvent {
            gaugemeister: self.gaugemeister.key,
            rewarder: self.gaugemeister.data.rewarder,
            quarry: self.quarry.key,
        }
    }
}

/// Creates the gauge in `accounts`.
pub fn handler(accounts: &mut CreateGauge) -> (result: Result<GaugeCreateEvent, ErrorCode>)
    ensures
        result == Ok::<_, ErrorCode>(old(accounts).creation_event()),
        *final(accounts) == (CreateGauge {
            gauge: Account { key: old(accounts).gauge.key, data: old(accounts).created() },
            ..*old(accounts)
        }),
{
    accounts.gauge.data = Gauge {
        gaugemeister: accounts.gaugemeister.key,
        quarry: accounts.quarry.key,
        is_disabled: true,
    };
    Ok(
        GaugeCreateEvent {
            gaugemeister: accounts.gaugemeister.key,
            rewarder: accounts.gaugemeister.data.rewarder,
            quarry: accounts.quarry.key,
        },
    )
}

} // verus!
