//! Commits the votes for a gauge, on behalf of the voter.

use vstd::prelude::*;
use crate::account::Account;
use crate::error::ErrorCode;
use crate::instructions::gauge_commit_vote::{CommitGaugeVoteEvent, GaugeCommitVote};
use crate::locker::Escrow;
use crate::pubkey::Pubkey;
use crate::state::{
    EpochGauge,
    EpochGaugeVote,
    EpochGaugeVoter,
    Gauge,
    GaugeVote,
    GaugeVoter,
    Gaugemeister,
};

verus! {

/// Accounts for committing a vote on behalf of the voter.
#[derive(Clone, Copy, Debug, PartialEq, Eq)]
pub struct GaugeCommitVoteV2 {
    /// The gaugemeister.
    pub gaugemeister: Account<Gaugemeister>,
    /// The gauge.
    pub gauge: Account<Gauge>,
    /// The gauge voter.
    pub gauge_voter: Account<GaugeVoter>,
    /// The gauge vote containing the vote weight.
    pub gauge_vote: Account<GaugeVote>,
    /// The epoch gauge.
    pub epoch_gauge: Account<EpochGauge>,
    /// The epoch gauge voter.
    pub epoch_gauge_voter: Account<EpochGaugeVoter>,
    /// The epoch gauge vote to create.
    pub epoch_gauge_vote: Account<EpochGaugeVote>,
    /// The escrow.
    pub escrow: Account<Escrow>,
    /// The account that asks for the commit: the escrow's vote delegate, or
    /// the vote committer of the voter's delegation.
    pub vote_delegate: Pubkey,
}

impl GaugeCommitVoteV2 {
    /// The accounts without the escrow and the one who asks.
    pub open spec fn spec_common(self) -> GaugeCommitVote {
        GaugeCommitVote {
            gaugemeister: self.gaugemeister,
            gauge: self.gauge,
            gauge_voter: self.gauge_voter,
            gauge_vote: self.gauge_vote,
            epoch_gauge: self.epoch_gauge,
            epoch_gauge_voter: self.epoch_gauge_voter,
            epoch_gauge_vote: self.epoch_gauge_vote,
        }
    }

    /// The accounts without the escrow and the one who asks.
    pub fn common(&self) -> (common: GaugeCommitVote)
        ensures
            common == self.spec_common(),
    {
        GaugeCommitVote {
            gaugemeister: self.gaugemeister,
            gauge: self.gauge,
            gauge_voter: self.gauge_voter,
            gauge_vote: self.gauge_vote,
            epoch_gauge: self.epoch_gauge,
            epoch_gauge_voter: self.epoch_gauge_voter,
            epoch_gauge_vote: self.epoch_gauge_vote,
        }
    }

    /// These accounts with the epoch records of `common`.
    pub open spec fn with_epoch_records(self, common: GaugeCommitVote) -> GaugeCommitVoteV2 {
        GaugeCommitVoteV2 {
            epoch_gauge: common.epoch_gauge,
            epoch_gauge_voter: common.epoch_gauge_voter,
            epoch_gauge_vote: common.epoch_gauge_vote,
            ..self
        }
    }

    /// The power that the vote gets of the voter's snapshot.
    pub open spec fn spec_vote_shares_for_next_epoch(&self) -> Option<u64> {
        self.spec_common().spec_vote_shares_for_next_epoch()
    }

    /// Computes the power that the vote gets of the voter's snapshot.
    pub fn vote_shares_for_next_epoch(&self) -> (shares: Option<u64>)
        ensures
            shares == self.spec_vote_shares_for_next_epoch(),
    {
        self.common().vote_shares_for_next_epoch()
    }

    /// What committing the vote does: what it does without the escrow and
    /// the one who asks.
    pub open spec fn spec_commit_vote(self) -> Result<
        (GaugeCommitVoteV2, Option<CommitGaugeVoteEvent>),
        ErrorCode,
    > {
        match self.spec_common().spec_commit_vote() {
            Ok((after, event)) => Ok((self.with_epoch_records(after), event)),
            Err(code) => Err(code),
        }
    }

    /// Commits the vote.
    pub fn commit_vote(&mut self) -> (result: Result<Option<CommitGaugeVoteEvent>, ErrorCode>)
        ensures
            match old(self).spec_commit_vote() {
                Ok((after, event)) => result == Ok::<_, ErrorCode>(event) && *final(self) == after,
                Err(code) => result == Err::<Option<CommitGaugeVoteEvent>, _>(code) && *final(self)
                    == *old(self),
            },
    {
        let mut common = self.common();
        let result = common.commit_vote();
        if result.is_ok() {
            self.epoch_gauge = common.epoch_gauge;
            self.epoch_gauge_voter = common.epoch_gauge_voter;
            self.epoch_gauge_vote = common.epoch_gauge_vote;
        }
        result
    }

    /// Whether the vote may be committed, whoever asks: it may be without
    /// the escrow, and the voter belongs to the escrow.
    pub open spec fn spec_validate_without_delegate(&self) -> Result<(), ErrorCode> {
        match self.spec_common().spec_validate() {
            Err(code) => Err(code),
            Ok(()) => if self.escrow.key != self.gauge_voter.data.escrow {
                Err(ErrorCode::KeyMismatch)
            } else {
                Ok(())
            },
        }
    }

    /// Checks that the vote may be committed, whoever asks.
    pub fn validate_without_delegate(&self) -> (result: Result<(), ErrorCode>)
        ensures
            result == self.spec_validate_without_delegate(),
    {
        match self.common().validate() {
            Ok(()) => {},
            Err(code) => return Err(code),
        }
        if self.escrow.key != self.gauge_voter.data.escrow {
            return Err(ErrorCode::KeyMismatch);
        }
        Ok(())
    }

    /// Whether the vote may be committed: it may be, whoever asks, and the
    /// escrow's vote delegate asks.
    pub open spec fn spec_validate(&self) -> Result<(), ErrorCode> {
        match self.spec_validate_without_delegate() {
            Err(code) => Err(code),
            Ok(()) => if self.vote_delegate != self.escrow.data.vote_delegate {
                Err(ErrorCode::KeyMismatch)
            } else {
                Ok(())
            },
        }
    }

    /// Checks that the vote may be committed and that the escrow's vote
    /// delegate asks for it.
    pub fn validate(&self) -> (result: Result<(), ErrorCode>)
        ensures
            result == self.spec_validate(),
    {
        match self.validate_without_delegate() {
            Ok(()) => {},
            Err(code) => return Err(code),
        }
        if self.vote_delegate != self.escrow.data.vote_delegate {
            return Err(ErrorCode::KeyMismatch);
        }
        Ok(())
    }
}

/// Commits the vote in `accounts`.
pub fn handler(accounts: &mut GaugeCommitVoteV2) -> (result: Result<
    Option<CommitGaugeVoteEvent>,
    ErrorCode,
>)
    ensures
        match old(accounts).spec_commit_vote() {
            Ok((after, event)) => result == Ok::<_, ErrorCode>(event) && *final(accounts) == after,
            Err(code) => result == Err::<Option<CommitGaugeVoteEvent>, _>(code) && *final(accounts)
                == *old(accounts),
        },
{
    accounts.commit_vote()
}

} // verus!
