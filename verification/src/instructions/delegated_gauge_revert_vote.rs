//! Reverts a vote for a gauge using the gauge delegation.

use vstd::prelude::*;
use crate::account::Account;
use crate::error::ErrorCode;
use crate::instructions::gauge_revert_vote::{GaugeRevertVote, RevertGaugeVoteEvent};
use crate::state::GaugeDelegation;

verus! {

/// Accounts for reverting a vote using the gauge delegation.
#[derive(Clone, Copy, Debug, PartialEq, Eq)]
pub struct DelegatedGaugeRevertVote {
    /// Common accounts for reverting gauge votes. The one who asks stands in
    /// the place of the vote delegate.
    pub common: GaugeRevertVote,
    /// The gauge delegation.
    pub gauge_delegation: Account<GaugeDelegation>,
}

impl DelegatedGaugeRevertVote {
    /// Whether the vote may be reverted: it may be, whoever asks, the
    /// delegation is the voter's, and its vote committer asks. A delegation
    /// without a vote committer lets nobody ask.
    pub open spec fn spec_validate(&self) -> Result<(), ErrorCode> {
        match self.common.spec_validate_without_delegate() {
            Err(code) => Err(code),
            Ok(()) => if self.common.gauge_voter.key == self.gauge_delegation.data.gauge_voter
                && self.gauge_delegation.data.spec_is_vote_committer(self.common.vote_delegate) {
                Ok(())
            } else {
                Err(ErrorCode::KeyMismatch)
            },
        }
    }

    /// Checks that the vote may be reverted by the one who asks.
    pub fn validate(&self) -> (result: Result<(), ErrorCode>)
        ensures
            result == self.spec_validate(),
    {
        match self.common.validate_without_delegate() {
            Ok(()) => {},
            Err(code) => return Err(code),
        }
        if self.common.gauge_voter.key != self.gauge_delegation.data.gauge_voter {
            return Err(ErrorCode::KeyMismatch);
        }
        if !self.gauge_delegation.data.is_vote_committer(&self.common.vote_delegate) {
            return Err(ErrorCode::KeyMismatch);
        }
        Ok(())
    }

    /// Reverts the vote.
    pub fn revert_vote(&mut self) -> (result: Result<RevertGaugeVoteEvent, ErrorCode>)
        ensures
            final(self).gauge_delegation == old(self).gauge_delegation,
            match old(self).common.spec_revert_vote() {
                Ok((after, event)) => result == Ok::<_, ErrorCode>(event) && final(self).common
                    == after,
                Err(code) => result == Err::<RevertGaugeVoteEvent, _>(code) && final(self).common
                    == old(self).common,
            },
    {
        self.common.revert_vote()
    }
}

/// Reverts the vote in `accounts`.
pub fn handler(accounts: &mut DelegatedGaugeRevertVote) -> (result: Result<
    RevertGaugeVoteEvent,
    ErrorCode,
>)
    ensures
        final(accounts).gauge_delegation == old(accounts).gauge_delegation,
        match old(accounts).common.spec_revert_vote() {
            Ok((after, event)) => result == Ok::<_, ErrorCode>(event) && final(accounts).common
                == after,
            Err(code) => result == Err::<RevertGaugeVoteEvent, _>(code) && final(accounts).common
                == old(accounts).common,
        },
{
    accounts.revert_vote()
}

} // verus!
