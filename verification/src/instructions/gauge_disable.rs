//! Disables a gauge.

use vstd::prelude::*;
use crate::account::Account;
use crate::error::ErrorCode;
use crate::instructions::gauge_enable::{check_foreman_may_switch, foreman_may_switch};
use crate::pubkey::Pubkey;
use crate::state::{Gauge, Gaugemeister};

verus! {

/// Accounts for disabling a gauge.
#[derive(Clone, Copy, Debug, PartialEq, Eq)]
pub struct GaugeDisable {
    /// The gaugemeister.
    pub gaugemeister: Account<Gaugemeister>,
    /// The gauge to disable.
    pub gauge: Account<Gauge>,
    /// The account that asks for it.
    pub foreman: Pubkey,
}

/// Record of a disabled gauge.
#[derive(Clone, Copy, Debug, PartialEq, Eq)]
pub struct GaugeDisableEvent {
    /// The gaugemeister.
    pub gaugemeister: Pubkey,
    /// The gauge.
    pub gauge: Pubkey,
    /// The foreman at the time of disabling the gauge.
    pub foreman: Pubkey,
}

impl GaugeDisable {
    /// Checks that the gauge may be disabled by the one who asks.
    pub fn validate(&self) -> (result: Result<(), ErrorCode>)
        ensures
            result == foreman_may_switch(&self.gaugemeister, &self.gauge, self.foreman),
    {
        check_foreman_may_switch(&self.gaugemeister, &self.gauge, &self.foreman)
    }
}

/// Disables the gauge in `accounts`.
pub fn handler(accounts: &mut GaugeDisable) -> (result: Result<GaugeDisableEvent, ErrorCode>)
    ensures
        result == Ok::<_, ErrorCode>(
            (GaugeDisableEvent {
                gaugemeister: old(accounts).gaugemeister.key,
                gauge: old(accounts).gauge.key,
                foreman: old(accounts).gaugemeister.data.foreman,
            }),
        ),
        *final(accounts) == (GaugeDisable {
            gauge: Account {
                key: old(accounts).gauge.key,
                data: Gauge { is_disabled: true, ..old(accounts).gauge.data },
            },
            ..*old(accounts)
        }),
{
    accounts.gauge.data.is_disabled = true;
    Ok(
        GaugeDisableEvent {
            gaugemeister: accounts.gaugemeister.key,
            gauge: accounts.gauge.key,
            foreman: accounts.gaugemeister.data.foreman,
        },
    )
}

} // verus!
