//! Commits the votes for a gauge.

use vstd::prelude::*;
use crate::account::Account;
use crate::casts::u128_to_u64;
use crate::error::ErrorCode;
use crate::pubkey::Pubkey;
use crate::state::{
    EpochGauge,
    EpochGaugeVote,
    EpochGaugeVoter,
    Gauge,
    GaugeVote,
    GaugeVoter,
    Gaugemeister,
};

verus! {

/// The share of `voting_power` that a vote of `weight` gets from a voter
/// whose votes weigh `total_weight` in all: the power times the weight over
/// the total weight, rounded down. A vote without weight gets no share.
/// There is no share where the total weight is zero, or where the share
/// exceeds 64 bits.
pub open spec fn vote_shares(voting_power: u64, weight: u32, total_weight: u32) -> Option<u64> {
    if weight == 0 {
        Some(0)
    } else if total_weight == 0 || (voting_power * weight) / (total_weight as int) > u64::MAX {
        None
    } else {
        Some(((voting_power * weight) / (total_weight as int)) as u64)
    }
}

/// Computes the share of `voting_power` that a vote of `weight` gets from a
/// voter whose votes weigh `total_weight` in all.
pub fn compute_vote_shares(voting_power: u64, weight: u32, total_weight: u32) -> (shares: Option<
    u64,
>)
    ensures
        shares == vote_shares(voting_power, weight, total_weight),
{
    if weight == 0 {
        return Some(0);
    }
    assert(voting_power * weight <= u128::MAX) by (nonlinear_arith)
        requires
            voting_power <= 0xffff_ffff_ffff_ffff,
            weight <= 0xffff_ffff,
    ;
    let product = match (voting_power as u128).checked_mul(weight as u128) {
        Some(product) => product,
        None => return None,
    };
    match product.checked_div(total_weight as u128) {
        Some(quotient) => u128_to_u64(quotient),
        None => None,
    }
}

/// Accounts for committing a vote.
#[derive(Clone, Copy, Debug, PartialEq, Eq)]
pub struct GaugeCommitVote {
    /// The gaugemeister.
    pub gaugemeister: Account<Gaugemeister>,
    /// The gauge.
    pub gauge: Account<Gauge>,
    /// The gauge voter.
    pub gauge_voter: Account<GaugeVoter>,
    /// The gauge vote containing the vote weight.
    pub gauge_vote: Account<GaugeVote>,
    /// The epoch gauge.
    pub epoch_gauge: Account<EpochGauge>,
    /// The epoch gauge voter.
    pub epoch_gauge_voter: Account<EpochGaugeVoter>,
    /// The epoch gauge vote to create.
    pub epoch_gauge_vote: Account<EpochGaugeVote>,
}

/// Record of a committed vote.
#[derive(Clone, Copy, Debug, PartialEq, Eq)]
pub struct CommitGaugeVoteEvent {
    /// The gaugemeister.
    pub gaugemeister: Pubkey,
    /// The gauge.
    pub gauge: Pubkey,
    /// The quarry being voted on.
    pub quarry: Pubkey,
    /// Owner of the escrow of the gauge voter.
    pub gauge_voter_owner: Pubkey,
    /// The epoch that the voter is voting for.
    pub voting_epoch: u32,
    /// The power that the vote committed.
    pub vote_shares_for_next_epoch: u64,
    /// The power that the voter has allocated for the epoch, after the commit.
    pub updated_allocated_power: u64,
    /// The power committed to the gauge for the epoch, after the commit.
    pub updated_total_power: u64,
}

impl GaugeCommitVote {
    /// The power that the vote gets of the voter's snapshot.
    pub open spec fn spec_vote_shares_for_next_epoch(&self) -> Option<u64> {
        vote_shares(
            self.epoch_gauge_voter.data.voting_power,
            self.gauge_vote.data.weight,
            self.gauge_voter.data.total_weight,
        )
    }

    /// Computes the power that the vote gets of the voter's snapshot.
    pub fn vote_shares_for_next_epoch(&self) -> (shares: Option<u64>)
        ensures
            shares == self.spec_vote_shares_for_next_epoch(),
    {
        compute_vote_shares(
            self.epoch_gauge_voter.data.voting_power,
            self.gauge_vote.data.weight,
            self.gauge_voter.data.total_weight,
        )
    }

    /// The accounts after `shares` were committed: the epoch gauge vote holds
    /// them, and both accumulators have grown by them.
    pub open spec fn committed(self, shares: u64) -> GaugeCommitVote {
        GaugeCommitVote {
            epoch_gauge: Account {
                key: self.epoch_gauge.key,
                data: EpochGauge {
                    total_power: (self.epoch_gauge.data.total_power + shares) as u64,
                    ..self.epoch_gauge.data
                },
            },
            epoch_gauge_voter: Account {
                key: self.epoch_gauge_voter.key,
                data: EpochGaugeVoter {
                    allocated_power: (self.epoch_gauge_voter.data.allocated_power + shares) as u64,
                    ..self.epoch_gauge_voter.data
                },
            },
            epoch_gauge_vote: Account {
                key: self.epoch_gauge_vote.key,
                data: EpochGaugeVote { allocated_power: shares },
            },
            ..self
        }
    }

    /// The record of a commit of `shares`.
    pub open spec fn commit_event(self, shares: u64) -> CommitGaugeVoteEvent {
        CommitGaugeVoteEvent {
            gaugemeister: self.gauge.data.gaugemeister,
            gauge: self.gauge.key,
            quarry: self.gauge.data.quarry,
            gauge_voter_owner: self.gauge_voter.data.owner,
            voting_epoch: self.epoch_gauge_voter.data.voting_epoch,
            vote_shares_for_next_epoch: shares,
            updated_allocated_power: (self.epoch_gauge_voter.data.allocated_power + shares) as u64,
            updated_total_power: (self.epoch_gauge.data.total_power + shares) as u64,
        }
    }

    /// What committing the vote does: the accounts afterwards and the record
    /// of the commit, or the reason for refusing.
    ///
    /// A vote without weight is not committed: nothing changes and there is
    /// no record. Any other vote is committed with its share of the voter's
    /// snapshot, unless there is no such share or an accumulator would exceed
    /// 64 bits.
    pub open spec fn spec_commit_vote(self) -> Result<
        (GaugeCommitVote, Option<CommitGaugeVoteEvent>),
        ErrorCode,
    > {
        match self.spec_vote_shares_for_next_epoch() {
            None => Err(ErrorCode::IntegerOverflow),
            Some(shares) => if self.gauge_vote.data.weight == 0 {
                Ok((self, None))
            } else if self.epoch_gauge_voter.data.allocated_power + shares > u64::MAX
                || self.epoch_gauge.data.total_power + shares > u64::MAX {
                Err(ErrorCode::IntegerOverflow)
            } else {
                Ok((self.committed(shares), Some(self.commit_event(shares))))
            },
        }
    }

    /// Commits the vote.
    pub fn commit_vote(&mut self) -> (result: Result<Option<CommitGaugeVoteEvent>, ErrorCode>)
        ensures
            match old(self).spec_commit_vote() {
                Ok((after, event)) => result == Ok::<_, ErrorCode>(event) && *final(self) == after,
                Err(code) => result == Err::<Option<CommitGaugeVoteEvent>, _>(code) && *final(self)
                    == *old(self),
            },
    {
        let next_vote_shares = match self.vote_shares_for_next_epoch() {
            Some(shares) => shares,
            None => return Err(ErrorCode::IntegerOverflow),
        };
        if self.gauge_vote.data.weight == 0 {
            return Ok(None);
        }
        let allocated_power = match self.epoch_gauge_voter.data.allocated_power.checked_add(
            next_vote_shares,
        ) {
            Some(power) => power,
            None => return Err(ErrorCode::IntegerOverflow),
        };
        let total_power = match self.epoch_gauge.data.total_power.checked_add(next_vote_shares) {
            Some(power) => power,
            None => return Err(ErrorCode::IntegerOverflow),
        };
        self.epoch_gauge_voter.data.allocated_power = allocated_power;
        self.epoch_gauge_vote.data.allocated_power = next_vote_shares;
        self.epoch_gauge.data.total_power = total_power;
        Ok(
            Some(
                CommitGaugeVoteEvent {
                    gaugemeister: self.gauge.data.gaugemeister,
                    gauge: self.gauge.key,
                    quarry: self.gauge.data.quarry,
                    gauge_voter_owner: self.gauge_voter.data.owner,
                    voting_epoch: self.epoch_gauge_voter.data.voting_epoch,
                    vote_shares_for_next_epoch: next_vote_shares,
                    updated_allocated_power: allocated_power,
                    updated_total_power: total_power,
                },
            ),
        )
    }

    /// Whether the accounts belong together: the gauge to the gaugemeister,
    /// the vote to the gauge and to the voter, the epoch gauge to the gauge,
    /// and the epoch gauge voter to the voter.
    pub open spec fn keys_match(&self) -> bool {
        &&& self.gaugemeister.key == self.gauge.data.gaugemeister
        &&& self.gauge.key == self.gauge_vote.data.gauge
        &&& self.gauge_voter.key == self.gauge_vote.data.gauge_voter
        &&& self.epoch_gauge.data.gauge == self.gauge.key
        &&& self.epoch_gauge_voter.data.gauge_voter == self.gauge_voter.key
    }

    /// Whether the vote may be committed: the accounts belong together, the
    /// gauge is enabled, the voter's weights are those of the snapshot, and
    /// the snapshot and the epoch gauge are of the epoch that is being voted
    /// on. The first of these that fails gives the error.
    pub open spec fn spec_validate(&self) -> Result<(), ErrorCode> {
        if !self.keys_match() {
            Err(ErrorCode::KeyMismatch)
        } else if self.gauge.data.is_disabled {
            Err(ErrorCode::CannotCommitGaugeDisabled)
        } else if self.epoch_gauge_voter.data.weight_change_seqno
            != self.gauge_voter.data.weight_change_seqno {
            Err(ErrorCode::WeightSeqnoChanged)
        } else {
            match self.gaugemeister.data.spec_voting_epoch() {
                Err(code) => Err(code),
                Ok(voting_epoch) => if self.epoch_gauge_voter.data.voting_epoch != voting_epoch
                    || self.epoch_gauge.data.voting_epoch != voting_epoch {
                    Err(ErrorCode::EpochGaugeNotVoting)
                } else {
                    Ok(())
                },
            }
        }
    }

    /// Checks that the vote may be committed.
    pub fn validate(&self) -> (result: Result<(), ErrorCode>)
        ensures
            result == self.spec_validate(),
    {
        if self.gaugemeister.key != self.gauge.data.gaugemeister {
            return Err(ErrorCode::KeyMismatch);
        }
        if self.gauge.key != self.gauge_vote.data.gauge {
            return Err(ErrorCode::KeyMismatch);
        }
        if self.gauge_voter.key != self.gauge_vote.data.gauge_voter {
            return Err(ErrorCode::KeyMismatch);
        }
        if self.epoch_gauge.data.gauge != self.gauge.key {
            return Err(ErrorCode::KeyMismatch);
        }
        if self.epoch_gauge_voter.data.gauge_voter != self.gauge_voter.key {
            return Err(ErrorCode::KeyMismatch);
        }
        if self.gauge.data.is_disabled {
            return Err(ErrorCode::CannotCommitGaugeDisabled);
        }
        if self.epoch_gauge_voter.data.weight_change_seqno
            != self.gauge_voter.data.weight_change_seqno {
            return Err(ErrorCode::WeightSeqnoChanged);
        }
        let voting_epoch = match self.gaugemeister.data.voting_epoch() {
            Ok(voting_epoch) => voting_epoch,
            Err(code) => return Err(code),
        };
        if self.epoch_gauge_voter.data.voting_epoch != voting_epoch {
            return Err(ErrorCode::EpochGaugeNotVoting);
        }
        if self.epoch_gauge.data.voting_epoch != voting_epoch {
            return Err(ErrorCode::EpochGaugeNotVoting);
        }
        Ok(())
    }
}

/// Commits the vote in `accounts`.
pub fn handler(accounts: &mut GaugeCommitVote) -> (result: Result<
    Option<CommitGaugeVoteEvent>,
    ErrorCode,
>)
    ensures
        match old(accounts).spec_commit_vote() {
            Ok((after, event)) => result == Ok::<_, ErrorCode>(event) && *final(accounts) == after,
            Err(code) => result == Err::<Option<CommitGaugeVoteEvent>, _>(code) && *final(accounts)
                == *old(accounts),
        },
{
    accounts.commit_vote()
}

} // verus!
