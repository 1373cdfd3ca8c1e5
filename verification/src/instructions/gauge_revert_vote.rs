//! Reverts a vote.

use vstd::prelude::*;
use crate::account::Account;
use crate::error::ErrorCode;
use crate::locker::Escrow;
use crate::pubkey::Pubkey;
use crate::state::{
    EpochGauge,
    EpochGaugeVote,
    EpochGaugeVoter,
    Gauge,
    GaugeVote,
    GaugeVoter,
    Gaugemeister,
};

verus! {

/// Accounts for reverting a committed vote.
#[derive(Clone, Copy, Debug, PartialEq, Eq)]
pub struct GaugeRevertVote {
    /// The gaugemeister.
    pub gaugemeister: Account<Gaugemeister>,
    /// The gauge.
    pub gauge: Account<Gauge>,
    /// The gauge voter.
    pub gauge_voter: Account<GaugeVoter>,
    /// The gauge vote.
    pub gauge_vote: Account<GaugeVote>,
    /// The epoch gauge.
    pub epoch_gauge: Account<EpochGauge>,
    /// The epoch gauge voter.
    pub epoch_gauge_voter: Account<EpochGaugeVoter>,
    /// The escrow.
    pub escrow: Account<Escrow>,
    /// The account that asks for the revert: the escrow's vote delegate, or
    /// the vote committer of the voter's delegation.
    pub vote_delegate: Pubkey,
    /// The epoch gauge vote to revert. The runtime removes it once the
    /// revert has succeeded.
    pub epoch_gauge_vote: Account<EpochGaugeVote>,
}

/// Record of a reverted vote.
#[derive(Clone, Copy, Debug, PartialEq, Eq)]
pub struct RevertGaugeVoteEvent {
    /// The gaugemeister.
    pub gaugemeister: Pubkey,
    /// The gauge.
    pub gauge: Pubkey,
    /// The quarry being voted on.
    pub quarry: Pubkey,
    /// Owner of the escrow of the gauge voter.
    pub gauge_voter_owner: Pubkey,
    /// The epoch that the voter is voting for.
    pub voting_epoch: u32,
    /// The power that was taken back.
    pub subtracted_power: u64,
    /// The power that the voter has allocated for the epoch, after the revert.
    pub updated_allocated_power: u64,
    /// The power committed to the gauge for the epoch, after the revert.
    pub updated_total_power: u64,
}

impl GaugeRevertVote {
    /// The address that the epoch gauge vote of the gauge vote has in the
    /// epoch that is being voted on, where there is such an epoch and such
    /// an address.
    pub open spec fn expected_vote_address(&self) -> Option<Pubkey> {
        match self.gaugemeister.data.spec_voting_epoch() {
            Ok(voting_epoch) => match EpochGaugeVote::spec_find_program_address(
                self.gauge_vote.key,
                voting_epoch,
            ) {
                Some((key, _)) => Some(key),
                None => None,
            },
            Err(_) => None,
        }
    }

    /// Whether the accounts other than the gaugemeister belong together: the
    /// epoch gauge to the gauge, the epoch gauge voter to the voter, the vote
    /// to the voter and to the gauge, the epoch gauge vote to the address
    /// `vote_address`, and the voter to the escrow.
    pub open spec fn keys_match(&self, vote_address: Option<Pubkey>) -> bool {
        &&& self.epoch_gauge.data.gauge == self.gauge.key
        &&& self.epoch_gauge_voter.data.gauge_voter == self.gauge_voter.key
        &&& self.gauge_vote.data.gauge_voter == self.gauge_voter.key
        &&& self.gauge_vote.data.gauge == self.gauge.key
        &&& vote_address == Some(self.epoch_gauge_vote.key)
        &&& self.escrow.key == self.gauge_voter.data.escrow
    }

    /// Whether the vote may be reverted, whoever asks, where `vote_address`
    /// is the address that the vote's epoch gauge vote has in the epoch that
    /// is being voted on: the gauge belongs to the gaugemeister, the epoch
    /// gauge and the epoch gauge voter are of that epoch, and the other
    /// accounts belong together. The first of these that fails gives the
    /// error.
    pub open spec fn spec_validate_with_address(&self, vote_address: Option<Pubkey>) -> Result<
        (),
        ErrorCode,
    > {
        if self.gaugemeister.key != self.gauge.data.gaugemeister {
            Err(ErrorCode::KeyMismatch)
        } else {
            match self.gaugemeister.data.spec_voting_epoch() {
                Err(code) => Err(code),
                Ok(voting_epoch) => if self.epoch_gauge.data.voting_epoch != voting_epoch
                    || self.epoch_gauge_voter.data.voting_epoch != voting_epoch {
                    Err(ErrorCode::EpochGaugeNotVoting)
                } else if !self.keys_match(vote_address) {
                    Err(ErrorCode::KeyMismatch)
                } else {
                    Ok(())
                },
            }
        }
    }

    /// Checks that the vote may be reverted, whoever asks, where
    /// `vote_address` is the address that the vote's epoch gauge vote has in
    /// the epoch that is being voted on.
    pub fn validate_with_address(&self, vote_address: Option<Pubkey>) -> (result: Result<
        (),
        ErrorCode,
    >)
        ensures
            result == self.spec_validate_with_address(vote_address),
    {
        if self.gaugemeister.key != self.gauge.data.gaugemeister {
            return Err(ErrorCode::KeyMismatch);
        }
        let voting_epoch = match self.gaugemeister.data.voting_epoch() {
            Ok(voting_epoch) => voting_epoch,
            Err(code) => return Err(code),
        };
        if self.epoch_gauge.data.voting_epoch != voting_epoch {
            return Err(ErrorCode::EpochGaugeNotVoting);
        }
        if self.epoch_gauge_voter.data.voting_epoch != voting_epoch {
            return Err(ErrorCode::EpochGaugeNotVoting);
        }
        if self.epoch_gauge.data.gauge != self.gauge.key {
            return Err(ErrorCode::KeyMismatch);
        }
        if self.epoch_gauge_voter.data.gauge_voter != self.gauge_voter.key {
            return Err(ErrorCode::KeyMismatch);
        }
        if self.gauge_vote.data.gauge_voter != self.gauge_voter.key {
            return Err(ErrorCode::KeyMismatch);
        }
        if self.gauge_vote.data.gauge != self.gauge.key {
            return Err(ErrorCode::KeyMismatch);
        }
        match vote_address {
            Some(key) => {
                if key != self.epoch_gauge_vote.key {
                    return Err(ErrorCode::KeyMismatch);
                }
            },
            None => return Err(ErrorCode::KeyMismatch),
        }
        if self.escrow.key != self.gauge_voter.data.escrow {
            return Err(ErrorCode::KeyMismatch);
        }
        Ok(())
    }

    /// Whether the vote may be reverted, whoever asks.
    pub open spec fn spec_validate_without_delegate(&self) -> Result<(), ErrorCode> {
        self.spec_validate_with_address(self.expected_vote_address())
    }

    /// Checks that the vote may be reverted, whoever asks.
    pub fn validate_without_delegate(&self) -> (result: Result<(), ErrorCode>)
        ensures
            result == self.spec_validate_without_delegate(),
    {
        let vote_address = match self.gaugemeister.data.voting_epoch() {
            Ok(voting_epoch) => match EpochGaugeVote::find_program_address(
                &self.gauge_vote.key,
                voting_epoch,
            ) {
                Some((key, _)) => Some(key),
                None => None,
            },
            Err(_) => None,
        };
        self.validate_with_address(vote_address)
    }

    /// Whether the vote may be reverted: it may be, whoever asks, and the
    /// escrow's vote delegate asks.
    pub open spec fn spec_validate(&self) -> Result<(), ErrorCode> {
        match self.spec_validate_without_delegate() {
            Err(code) => Err(code),
            Ok(()) => if self.vote_delegate != self.escrow.data.vote_delegate {
                Err(ErrorCode::KeyMismatch)
            } else {
                Ok(())
            },
        }
    }

    /// Checks that the vote may be reverted and that the escrow's vote
    /// delegate asks for it.
    pub fn validate(&self) -> (result: Result<(), ErrorCode>)
        ensures
            result == self.spec_validate(),
    {
        match self.validate_without_delegate() {
            Ok(()) => {},
            Err(code) => return Err(code),
        }
        if self.vote_delegate != self.escrow.data.vote_delegate {
            return Err(ErrorCode::KeyMismatch);
        }
        Ok(())
    }

    /// The accounts after the vote was reverted: both accumulators have
    /// shrunk by the power that the epoch gauge vote holds.
    pub open spec fn reverted(self) -> GaugeRevertVote {
        let power = self.epoch_gauge_vote.data.allocated_power;
        GaugeRevertVote {
            epoch_gauge: Account {
                key: self.epoch_gauge.key,
                data: EpochGauge {
                    total_power: (self.epoch_gauge.data.total_power - power) as u64,
                    ..self.epoch_gauge.data
                },
            },
            epoch_gauge_voter: Account {
                key: self.epoch_gauge_voter.key,
                data: EpochGaugeVoter {
                    allocated_power: (self.epoch_gauge_voter.data.allocated_power - power) as u64,
                    ..self.epoch_gauge_voter.data
                },
            },
            ..self
        }
    }

    /// The record of the revert.
    pub open spec fn revert_event(self) -> RevertGaugeVoteEvent {
        let power = self.epoch_gauge_vote.data.allocated_power;
        RevertGaugeVoteEvent {
            gaugemeister: self.gaugemeister.key,
            gauge: self.gauge.key,
            quarry: self.gauge.data.quarry,
            gauge_voter_owner: self.gauge_voter.data.owner,
            voting_epoch: self.epoch_gauge_voter.data.voting_epoch,
            subtracted_power: power,
            updated_allocated_power: (self.epoch_gauge_voter.data.allocated_power - power) as u64,
            updated_total_power: (self.epoch_gauge.data.total_power - power) as u64,
        }
    }

    /// What reverting the vote does: the accounts afterwards and the record
    /// of the revert, or the reason for refusing. The revert is refused where
    /// an accumulator holds less than the power to take back.
    pub open spec fn spec_revert_vote(self) -> Result<
        (GaugeRevertVote, RevertGaugeVoteEvent),
        ErrorCode,
    > {
        let power = self.epoch_gauge_vote.data.allocated_power;
        if self.epoch_gauge_voter.data.allocated_power < power || self.epoch_gauge.data.total_power
            < power {
            Err(ErrorCode::IntegerOverflow)
        } else {
            Ok((self.reverted(), self.revert_event()))
        }
    }

    /// Reverts the vote.
    pub fn revert_vote(&mut self) -> (result: Result<RevertGaugeVoteEvent, ErrorCode>)
        ensures
            match old(self).spec_revert_vote() {
                Ok((after, event)) => result == Ok::<_, ErrorCode>(event) && *final(self) == after,
                Err(code) => result == Err::<RevertGaugeVoteEvent, _>(code)
                    && *final(self) == *old(self),
            },
    {
        let power_subtract = self.epoch_gauge_vote.data.allocated_power;
        let allocated_power = match self.epoch_gauge_voter.data.allocated_power.checked_sub(
            power_subtract,
        ) {
            Some(power) => power,
            None => return Err(ErrorCode::IntegerOverflow),
        };
        let total_power = match self.epoch_gauge.data.total_power.checked_sub(power_subtract) {
            Some(power) => power,
            None => return Err(ErrorCode::IntegerOverflow),
        };
        self.epoch_gauge_voter.data.allocated_power = allocated_power;
        self.epoch_gauge.data.total_power = total_power;
        Ok(
            RevertGaugeVoteEvent {
                gaugemeister: self.gaugemeister.key,
                gauge: self.gauge.key,
                quarry: self.gauge.data.quarry,
                gauge_voter_owner: self.gauge_voter.data.owner,
                voting_epoch: self.epoch_gauge_voter.data.voting_epoch,
                subtracted_power: power_subtract,
                updated_allocated_power: allocated_power,
                updated_total_power: total_power,
            },
        )
    }
}

/// Reverts the vote in `accounts`.
pub fn handler(accounts: &mut GaugeRevertVote) -> (result: Result<RevertGaugeVoteEvent, ErrorCode>)
    ensures
        match old(accounts).spec_revert_vote() {
            Ok((after, event)) => result == Ok::<_, ErrorCode>(event) && *final(accounts) == after,
            Err(code) => result == Err::<RevertGaugeVoteEvent, _>(code)
                && *final(accounts) == *old(accounts),
        },
{
    accounts.revert_vote()
}

} // verus!
