//! Sets the vote setter of a gauge delegation.

use vstd::prelude::*;
use crate::account::Account;
use crate::error::ErrorCode;
use crate::locker::Escrow;
use crate::pubkey::Pubkey;
use crate::state::{GaugeDelegation, GaugeVoter};

verus! {

/// Accounts for setting the vote setter of a gauge delegation.
#[derive(Clone, Copy, Debug, PartialEq, Eq)]
pub struct DelegationSetVoteSetter {
    /// The gauge delegation.
    pub gauge_delegation: Account<GaugeDelegation>,
    /// The gauge voter.
    pub gauge_voter: Account<GaugeVoter>,
    /// The escrow.
    pub escrow: Account<Escrow>,
    /// The account that asks for it.
    pub escrow_vote_delegate: Pubkey,
    /// The new vote setter.
    pub new_vote_setter: Pubkey,
}

/// Whether `asking` may grant a capability of the delegation: the delegation
/// is the voter's, the voter is the escrow's, and `asking` is the escrow's
/// vote delegate.
pub open spec fn delegate_may_grant(
    gauge_delegation: &Account<GaugeDelegation>,
    gauge_voter: &Account<GaugeVoter>,
    escrow: &Account<Escrow>,
    asking: Pubkey,
) -> bool {
    &&& gauge_voter.key == gauge_delegation.data.gauge_voter
    &&& escrow.key == gauge_voter.data.escrow
    &&& asking == escrow.data.vote_delegate
}

/// Checks that `asking` may grant a capability of the delegation.
pub fn check_delegate_may_grant(
    gauge_delegation: &Account<GaugeDelegation>,
    gauge_voter: &Account<GaugeVoter>,
    escrow: &Account<Escrow>,
    asking: &Pubkey,
) -> (result: Result<(), ErrorCode>)
    ensures
        result == (if delegate_may_grant(gauge_delegation, gauge_voter, escrow, *asking) {
            Ok::<(), ErrorCode>(())
        } else {
            Err(ErrorCode::KeyMismatch)
        }),
{
    if gauge_voter.key != gauge_delegation.data.gauge_voter {
        return Err(ErrorCode::KeyMismatch);
    }
    if escrow.key != gauge_voter.data.escrow {
        return Err(ErrorCode::KeyMismatch);
    }
    if *asking != escrow.data.vote_delegate {
        return Err(ErrorCode::KeyMismatch);
    }
    Ok(())
}

impl DelegationSetVoteSetter {
    /// Whether the vote setter may be set by the one who asks.
    pub open spec fn spec_validate(&self) -> Result<(), ErrorCode> {
        if delegate_may_grant(
            &self.gauge_delegation,
            &self.gauge_voter,
            &self.escrow,
            self.escrow_vote_delegate,
        ) {
            Ok(())
        } else {
            Err(ErrorCode::KeyMismatch)
        }
    }

    /// Checks that the vote setter may be set by the one who asks.
    pub fn validate(&self) -> (result: Result<(), ErrorCode>)
        ensures
            result == self.spec_validate(),
    {
        check_delegate_may_grant(
            &self.gauge_delegation,
            &self.gauge_voter,
            &self.escrow,
            &self.escrow_vote_delegate,
        )
    }

    /// Sets the vote setter.
    pub fn set_vote_setter(&mut self) -> (result: Result<(), ErrorCode>)
        ensures
            result == Ok::<(), ErrorCode>(()),
            *final(self) == (DelegationSetVoteSetter {
                gauge_delegation: Account {
                    key: old(self).gauge_delegation.key,
                    data: GaugeDelegation {
                        vote_setter: old(self).new_vote_setter,
                        ..old(self).gauge_delegation.data
                    },
                },
                ..*old(self)
            }),
    {
        self.gauge_delegation.data.vote_setter = self.new_vote_setter;
        Ok(())
    }
}

/// Sets the vote setter of the delegation in `accounts`.
pub fn handler(accounts: &mut DelegationSetVoteSetter) -> (result: Result<(), ErrorCode>)
    ensures
        result == Ok::<(), ErrorCode>(()),
        *final(accounts) == (DelegationSetVoteSetter {
            gauge_delegation: Account {
                key: old(accounts).gauge_delegation.key,
                data: GaugeDelegation {
                    vote_setter: old(accounts).new_vote_setter,
                    ..old(accounts).gauge_delegation.data
                },
            },
            ..*old(accounts)
        }),
{
    accounts.set_vote_setter()
}

} // verus!
