//! Votes for a gauge using the gauge delegation.

use vstd::prelude::*;
use crate::account::Account;
use crate::error::ErrorCode;
use crate::instructions::gauge_set_vote::{GaugeSetVote, SetGaugeVoteEvent};
use crate::state::GaugeDelegation;

verus! {

/// Accounts for setting the weight of a vote using the gauge delegation.
#[derive(Clone, Copy, Debug, PartialEq, Eq)]
pub struct DelegatedGaugeSetVote {
    /// Common accounts for setting gauge votes. The one who asks stands in
    /// the place of the vote delegate.
    pub common: GaugeSetVote,
    /// The gauge delegation.
    pub gauge_delegation: Account<GaugeDelegation>,
}

impl DelegatedGaugeSetVote {
    /// Whether the change is in order: the accounts belong together, the
    /// delegation is the voter's, and its vote setter asks. A delegation
    /// without a vote setter lets nobody ask.
    pub open spec fn spec_validate(&self) -> Result<(), ErrorCode> {
        if self.common.keys_match() && self.common.gauge_voter.key
            == self.gauge_delegation.data.gauge_voter
            && self.gauge_delegation.data.spec_is_vote_setter(self.common.vote_delegate) {
            Ok(())
        } else {
            Err(ErrorCode::KeyMismatch)
        }
    }

    /// Checks that the change is in order.
    pub fn validate(&self) -> (result: Result<(), ErrorCode>)
        ensures
            result == self.spec_validate(),
    {
        match self.common.validate_without_delegate() {
            Ok(()) => {},
            Err(code) => return Err(code),
        }
        if self.common.gauge_voter.key != self.gauge_delegation.data.gauge_voter {
            return Err(ErrorCode::KeyMismatch);
        }
        if !self.gauge_delegation.data.is_vote_setter(&self.common.vote_delegate) {
            return Err(ErrorCode::KeyMismatch);
        }
        Ok(())
    }

    /// Sets the weight of the vote.
    pub fn set_vote(&mut self, weight: u32) -> (result: Result<
        Option<SetGaugeVoteEvent>,
        ErrorCode,
    >)
        ensures
            final(self).gauge_delegation == old(self).gauge_delegation,
            match old(self).common.spec_set_vote(weight) {
                Ok((after, event)) => result == Ok::<_, ErrorCode>(event) && final(self).common
                    == after,
                Err(code) => result == Err::<Option<SetGaugeVoteEvent>, _>(code)
                    && final(self).common == old(self).common,
            },
    {
        self.common.set_vote(weight)
    }
}

/// Sets the weight of the vote in `accounts` to `weight`.
pub fn handler(accounts: &mut DelegatedGaugeSetVote, weight: u32) -> (result: Result<
    Option<SetGaugeVoteEvent>,
    ErrorCode,
>)
    ensures
        final(accounts).gauge_delegation == old(accounts).gauge_delegation,
        match old(accounts).common.spec_set_vote(weight) {
            Ok((after, event)) => result == Ok::<_, ErrorCode>(event) && final(accounts).common
                == after,
            Err(code) => result == Err::<Option<SetGaugeVoteEvent>, _>(code)
                && final(accounts).common == old(accounts).common,
        },
{
    accounts.set_vote(weight)
}

} // verus!
