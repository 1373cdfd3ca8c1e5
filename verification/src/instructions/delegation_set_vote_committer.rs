//! Sets the vote committer of a gauge delegation.

use vstd::prelude::*;
use crate::account::Account;
use crate::error::ErrorCode;
use crate::instructions::delegation_set_vote_setter::{
    check_delegate_may_grant,
    delegate_may_grant,
};
use crate::locker::Escrow;
use crate::pubkey::Pubkey;
use crate::state::{GaugeDelegation, GaugeVoter};

verus! {

/// Accounts for setting the vote committer of a gauge delegation.
#[derive(Clone, Copy, Debug, PartialEq, Eq)]
pub struct DelegationSetVoteCommitter {
    /// The gauge delegation.
    pub gauge_delegation: Account<GaugeDelegation>,
    /// The gauge voter.
    pub gauge_voter: Account<GaugeVoter>,
    /// The escrow.
    pub escrow: Account<Escrow>,
    /// The account that asks for it.
    pub escrow_vote_delegate: Pubkey,
    /// The new vote committer.
    pub new_vote_committer: Pubkey,
}

impl DelegationSetVoteCommitter {
    /// Whether the vote committer may be set by the one who asks.
    pub open spec fn spec_validate(&self) -> Result<(), ErrorCode> {
        if delegate_may_grant(
            &self.gauge_delegation,
            &self.gauge_voter,
            &self.escrow,
            self.escrow_vote_delegate,
        ) {
            Ok(())
        } else {
            Err(ErrorCode::KeyMismatch)
        }
    }

    /// Checks that the vote committer may be set by the one who asks.
    pub fn validate(&self) -> (result: Result<(), ErrorCode>)
        ensures
            result == self.spec_validate(),
    {
        check_delegate_may_grant(
            &self.gauge_delegation,
            &self.gauge_voter,
            &self.escrow,
            &self.escrow_vote_delegate,
        )
    }

    /// Sets the vote committer.
    pub fn set_vote_committer(&mut self) -> (result: Result<(), ErrorCode>)
        ensures
            result == Ok::<(), ErrorCode>(()),
            *final(self) == (DelegationSetVoteCommitter {
                gauge_delegation: Account {
                    key: old(self).gauge_delegation.key,
                    data: GaugeDelegation {
                        vote_committer: old(self).new_vote_committer,
                        ..old(self).gauge_delegation.data
                    },
                },
                ..*old(self)
            }),
    {
        self.gauge_delegation.data.vote_committer = self.new_vote_committer;
        Ok(())
    }
}

/// Sets the vote committer of the delegation in `accounts`.
pub fn handler(accounts: &mut DelegationSetVoteCommitter) -> (result: Result<(), ErrorCode>)
    ensures
        result == Ok::<(), ErrorCode>(()),
        *final(accounts) == (DelegationSetVoteCommitter {
            gauge_delegation: Account {
                key: old(accounts).gauge_delegation.key,
                data: GaugeDelegation {
                    vote_committer: old(accounts).new_vote_committer,
                    ..old(accounts).gauge_delegation.data
                },
            },
            ..*old(accounts)
        }),
{
    accounts.set_vote_committer()
}

} // verus!
