//! Creates a gauge voter.

use vstd::prelude::*;
use crate::account::Account;
use crate::error::ErrorCode;
use crate::locker::Escrow;
use crate::state::{GaugeVoter, Gaugemeister};

verus! {

/// Accounts for creating a gauge voter.
#[derive(Clone, Copy, Debug, PartialEq, Eq)]
pub struct CreateGaugeVoter {
    /// The gauge voter to be created.
    pub gauge_voter: Account<GaugeVoter>,
    /// The gaugemeister.
    pub gaugemeister: Account<Gaugemeister>,
    /// The escrow that votes.
    pub escrow: Account<Escrow>,
}

impl CreateGaugeVoter {
    /// Whether the voter may be created: the escrow is of the gaugemeister's
    /// locker.
    pub open spec fn spec_validate(&self) -> Result<(), ErrorCode> {
        if self.escrow.data.locker == self.gaugemeister.data.locker {
            Ok(())
        } else {
            Err(ErrorCode::KeyMismatch)
        }
    }

    /// Checks that the voter may be created.
    pub fn validate(&self) -> (result: Result<(), ErrorCode>)
        ensures
            result == self.spec_validate(),
    {
        if self.escrow.data.locker != self.gaugemeister.data.locker {
            return Err(ErrorCode::KeyMismatch);
        }
        Ok(())
    }

    /// The voter that is created: of the gaugemeister and the escrow, with
    /// no weight distributed and no change of weights yet.
    pub open spec fn created(&self) -> GaugeVoter {
        GaugeVoter {
            gaugemeister: self.gaugemeister.key,
            escrow: self.escrow.key,
            owner: self.escrow.data.owner,
            total_weight: 0,
            weight_change_seqno: 0,
        }
    }
}

/// Creates the gauge voter in `accounts`.
pub fn handler(accounts: &mut CreateGaugeVoter, _bump: u8) -> (result: Result<(), ErrorCode>)
    ensures
        result == Ok::<(), ErrorCode>(()),
        *final(accounts) == (CreateGaugeVoter {
            gauge_voter: Account {
                key: old(accounts).gauge_voter.key,
                data: old(accounts).created(),
            },
            ..*old(accounts)
        }),
{
    accounts.gauge_voter.data = GaugeVoter {
        gaugemeister: accounts.gaugemeister.key,
        escrow: accounts.escrow.key,
        owner: accounts.escrow.data.owner,
        total_weight: 0,
        weight_change_seqno: 0,
    };
    Ok(())
}

} // verus!
