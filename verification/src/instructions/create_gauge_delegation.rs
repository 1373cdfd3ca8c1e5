//! Creates a gauge delegation.

use vstd::prelude::*;
use crate::account::Account;
use crate::error::ErrorCode;
use crate::locker::Escrow;
use crate::pubkey::Pubkey;
use crate::state::{GaugeDelegation, GaugeVoter};

verus! {

/// Accounts for creating a gauge delegation.
#[derive(Clone, Copy, Debug, PartialEq, Eq)]
pub struct CreateGaugeDelegation {
    /// The gauge delegation to be created.
    pub gauge_delegation: Account<GaugeDelegation>,
    /// The gauge voter.
    pub gauge_voter: Account<GaugeVoter>,
    /// The escrow.
    pub escrow: Account<Escrow>,
}

impl CreateGaugeDelegation {
    /// Whether the delegation may be created: the voter is the escrow's.
    pub open spec fn spec_validate(&self) -> Result<(), ErrorCode> {
        if self.escrow.key == self.gauge_voter.data.escrow {
            Ok(())
        } else {
            Err(ErrorCode::KeyMismatch)
        }
    }

    /// Checks that the delegation may be created.
    pub fn validate(&self) -> (result: Result<(), ErrorCode>)
        ensures
            result == self.spec_validate(),
    {
        if self.escrow.key != self.gauge_voter.data.escrow {
            return Err(ErrorCode::KeyMismatch);
        }
        Ok(())
    }

    /// The delegation that is created: of the voter, with nobody set to act
    /// for it.
    pub open spec fn created(&self) -> GaugeDelegation {
        GaugeDelegation {
            gauge_voter: self.gauge_voter.key,
            vote_setter: Pubkey::spec_default(),
            vote_committer: Pubkey::spec_default(),
        }
    }
}

/// Creates the gauge delegation in `accounts`.
pub fn handler(accounts: &mut CreateGaugeDelegation) -> (result: Result<(), ErrorCode>)
    ensures
        result == Ok::<(), ErrorCode>(()),
        *final(accounts) == (CreateGaugeDelegation {
            gauge_delegation: Account {
                key: old(accounts).gauge_delegation.key,
                data: old(accounts).created(),
            },
            ..*old(accounts)
        }),
{
    accounts.gauge_delegation.data = GaugeDelegation {
        gauge_voter: accounts.gauge_voter.key,
        vote_setter: Pubkey::default(),
        vote_committer: Pubkey::default(),
    };
    Ok(())
}

} // verus!
