//! Enables a gauge.

use vstd::prelude::*;
use crate::account::Account;
use crate::error::ErrorCode;
use crate::pubkey::Pubkey;
use crate::state::{Gauge, Gaugemeister};

verus! {

/// Accounts for enabling a gauge.
#[derive(Clone, Copy, Debug, PartialEq, Eq)]
pub struct GaugeEnable {
    /// The gaugemeister.
    pub gaugemeister: Account<Gaugemeister>,
    /// The gauge to enable.
    pub gauge: Account<Gauge>,
    /// The account that asks for it.
    pub foreman: Pubkey,
}

/// Record of an enabled gauge.
#[derive(Clone, Copy, Debug, PartialEq, Eq)]
pub struct GaugeEnableEvent {
    /// The gaugemeister.
    pub gaugemeister: Pubkey,
    /// The gauge.
    pub gauge: Pubkey,
    /// The foreman at the time of enabling the gauge.
    pub foreman: Pubkey,
}

/// Whether `foreman` may switch the gauge: the gauge is of the gaugemeister,
/// and `foreman` is the gaugemeister's foreman. The first of these that
/// fails gives the error.
pub open spec fn foreman_may_switch(
    gaugemeister: &Account<Gaugemeister>,
    gauge: &Account<Gauge>,
    foreman: Pubkey,
) -> Result<(), ErrorCode> {
    if gaugemeister.key != gauge.data.gaugemeister {
        Err(ErrorCode::KeyMismatch)
    } else if foreman != gaugemeister.data.foreman {
        Err(ErrorCode::UnauthorizedNotForeman)
    } else {
        Ok(())
    }
}

/// Checks that `foreman` may switch the gauge.
pub fn check_foreman_may_switch(
    gaugemeister: &Account<Gaugemeister>,
    gauge: &Account<Gauge>,
    foreman: &Pubkey,
) -> (result: Result<(), ErrorCode>)
    ensures
        result == foreman_may_switch(gaugemeister, gauge, *foreman),
{
    if gaugemeister.key != gauge.data.gaugemeister {
        return Err(ErrorCode::KeyMismatch);
    }
    if *foreman != gaugemeister.data.foreman {
        return Err(ErrorCode::UnauthorizedNotForeman);
    }
    Ok(())
}

impl GaugeEnable {
    /// Checks that the gauge may be enabled by the one who asks.
    pub fn validate(&self) -> (result: Result<(), ErrorCode>)
        ensures
            result == foreman_may_switch(&self.gaugemeister, &self.gauge, self.foreman),
    {
        check_foreman_may_switch(&self.gaugemeister, &self.gauge, &self.foreman)
    }
}

/// Enables the gauge in `accounts`.
pub fn handler(accounts: &mut GaugeEnable) -> (result: Result<GaugeEnableEvent, ErrorCode>)
    ensures
        result == Ok::<_, ErrorCode>(
            (GaugeEnableEvent {
                gaugemeister: old(accounts).gaugemeister.key,
                gauge: old(accounts).gauge.key,
                foreman: old(accounts).gaugemeister.data.foreman,
            }),
        ),
        *final(accounts) == (GaugeEnable {
            gauge: Account {
                key: old(accounts).gauge.key,
                data: Gauge { is_disabled: false, ..old(accounts).gauge.data },
            },
            ..*old(accounts)
        }),
{
    accounts.gauge.data.is_disabled = false;
    Ok(
        GaugeEnableEvent {
            gaugemeister: accounts.gaugemeister.key,
            gauge: accounts.gauge.key,
            foreman: accounts.gaugemeister.data.foreman,
        },
    )
}

} // verus!
