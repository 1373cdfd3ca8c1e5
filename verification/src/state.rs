//! The records that hold the state of gauge voting.

use vstd::prelude::*;
use crate::error::ErrorCode;
use crate::pubkey::Pubkey;

verus! {

/// Manages the rewards shares of all gauges of a rewarder, and keeps the
/// epoch clock.
#[derive(Clone, Copy, Debug, PartialEq, Eq)]
pub struct Gaugemeister {
    /// Base.
    pub base: Pubkey,
    /// Bump seed.
    pub bump: u8,
    /// The rewarder.
    pub rewarder: Pubkey,
    /// The operator of the rewarder.
    pub operator: Pubkey,
    /// The locker whose escrows vote.
    pub locker: Pubkey,
    /// Account which may enable and disable gauges and set the parameters.
    pub foreman: Pubkey,
    /// Number of seconds per rewards epoch.
    pub epoch_duration_seconds: u32,
    /// The current rewards epoch.
    pub current_rewards_epoch: u32,
    /// When the next epoch starts, in seconds since the Unix epoch.
    pub next_epoch_starts_at: u64,
    /// Token mint of the locker.
    pub locker_token_mint: Pubkey,
    /// Governor associated with the locker.
    pub locker_governor: Pubkey,
}

impl Gaugemeister {
    /// The epoch that is being voted on: the one after the current rewards
    /// epoch, where that is representable.
    pub open spec fn spec_voting_epoch(&self) -> Result<u32, ErrorCode> {
        if self.current_rewards_epoch < u32::MAX {
            Ok((self.current_rewards_epoch + 1) as u32)
        } else {
            Err(ErrorCode::IntegerOverflow)
        }
    }

    /// Fetches the current voting epoch. This is always the epoch after the
    /// current rewards epoch.
    pub fn voting_epoch(&self) -> (epoch: Result<u32, ErrorCode>)
        ensures
            epoch == self.spec_voting_epoch(),
    {
        match self.current_rewards_epoch.checked_add(1) {
            Some(voting_epoch) => Ok(voting_epoch),
            None => Err(ErrorCode::IntegerOverflow),
        }
    }
}

/// A gauge determines the rewards shares to give to a quarry.
#[derive(Clone, Copy, Debug, PartialEq, Eq)]
pub struct Gauge {
    /// The gaugemeister.
    pub gaugemeister: Pubkey,
    /// The quarry being voted on.
    pub quarry: Pubkey,
    /// If true, this gauge cannot receive any more votes and rewards shares
    /// cannot be synchronized from it.
    pub is_disabled: bool,
}

/// A gauge voter represents an escrow that can vote on gauges.
#[derive(Clone, Copy, Debug, PartialEq, Eq)]
pub struct GaugeVoter {
    /// The gaugemeister.
    pub gaugemeister: Pubkey,
    /// The escrow of the voter.
    pub escrow: Pubkey,
    /// Owner of the escrow of the voter.
    pub owner: Pubkey,
    /// Total number of parts that the voter has distributed.
    pub total_weight: u32,
    /// This number gets incremented whenever weights are changed. A snapshot
    /// of voting power that carries another number is stale.
    pub weight_change_seqno: u64,
}

/// A gauge vote is a voter's vote for a given gauge.
#[derive(Clone, Copy, Debug, PartialEq, Eq)]
pub struct GaugeVote {
    /// The gauge voter.
    pub gauge_voter: Pubkey,
    /// The gauge being voted on.
    pub gauge: Pubkey,
    /// Proportion of votes that the voter is applying to this gauge.
    pub weight: u32,
    /// The voter's sequence number when the vote was created.
    pub weight_change_seqno: u64,
}

/// An epoch gauge is a gauge's total committed votes for a given epoch.
#[derive(Clone, Copy, Debug, PartialEq, Eq)]
pub struct EpochGauge {
    /// The gauge.
    pub gauge: Pubkey,
    /// The epoch associated with this epoch gauge.
    pub voting_epoch: u32,
    /// The total power committed to the gauge for the epoch.
    pub total_power: u64,
}

/// An epoch gauge voter is a voter's snapshot of voting power, and the part
/// of it that is committed, for a given epoch.
#[derive(Clone, Copy, Debug, PartialEq, Eq)]
pub struct EpochGaugeVoter {
    /// The gauge voter.
    pub gauge_voter: Pubkey,
    /// The epoch that the voter is voting for.
    pub voting_epoch: u32,
    /// The voter's sequence number at the time of the snapshot. If it differs
    /// from the voter's, the snapshot is stale and must be reset before any
    /// new vote is committed for this epoch.
    pub weight_change_seqno: u64,
    /// The total amount of voting power.
    pub voting_power: u64,
    /// The total amount of voting power that has been allocated to gauges.
    pub allocated_power: u64,
}

/// An epoch gauge vote is a voter's committed vote for a given gauge at a
/// given epoch. That it exists is what says that the vote was committed.
#[derive(Clone, Copy, Debug, PartialEq, Eq)]
pub struct EpochGaugeVote {
    /// The power that was committed: the voter's voting power times the
    /// vote's weight over the voter's total weight, rounded down.
    pub allocated_power: u64,
}

/// Who, besides the escrow's vote delegate, may act for a voter.
#[derive(Clone, Copy, Debug, PartialEq, Eq)]
pub struct GaugeDelegation {
    /// The gauge voter.
    pub gauge_voter: Pubkey,
    /// The account that may set the voter's votes. While it is the all-zero
    /// address, nobody may by this delegation.
    pub vote_setter: Pubkey,
    /// The account that may commit and revert the voter's votes. While it
    /// is the all-zero address, nobody may by this delegation.
    pub vote_committer: Pubkey,
}

impl GaugeDelegation {
    /// Whether `asking` may set the voter's votes by this delegation: a
    /// vote setter is set, and `asking` is the one.
    pub open spec fn spec_is_vote_setter(&self, asking: Pubkey) -> bool {
        self.vote_setter != Pubkey::spec_default() && asking == self.vote_setter
    }

    /// Tells whether `asking` may set the voter's votes by this delegation.
    pub fn is_vote_setter(&self, asking: &Pubkey) -> (allowed: bool)
        ensures
            allowed == self.spec_is_vote_setter(*asking),
    {
        self.vote_setter != Pubkey::default() && *asking == self.vote_setter
    }

    /// Whether `asking` may commit and revert the voter's votes by this
    /// delegation: a vote committer is set, and `asking` is the one.
    pub open spec fn spec_is_vote_committer(&self, asking: Pubkey) -> bool {
        self.vote_committer != Pubkey::spec_default() && asking == self.vote_committer
    }

    /// Tells whether `asking` may commit and revert the voter's votes by
    /// this delegation.
    pub fn is_vote_committer(&self, asking: &Pubkey) -> (allowed: bool)
        ensures
            allowed == self.spec_is_vote_committer(*asking),
    {
        self.vote_committer != Pubkey::default() && *asking == self.vote_committer
    }
}

impl Default for Gaugemeister {
    /// The gaugemeister of a record that is not yet filled in.
    fn default() -> (record: Gaugemeister)
        ensures
            record == (Gaugemeister {
                base: Pubkey::spec_default(),
                bump: 0,
                rewarder: Pubkey::spec_default(),
                operator: Pubkey::spec_default(),
                locker: Pubkey::spec_default(),
                foreman: Pubkey::spec_default(),
                epoch_duration_seconds: 0,
                current_rewards_epoch: 0,
                next_epoch_starts_at: 0,
                locker_token_mint: Pubkey::spec_default(),
                locker_governor: Pubkey::spec_default(),
            }),
    {
        Gaugemeister {
            base: Pubkey::default(),
            bump: 0,
            rewarder: Pubkey::default(),
            operator: Pubkey::default(),
            locker: Pubkey::default(),
            foreman: Pubkey::default(),
            epoch_duration_seconds: 0,
            current_rewards_epoch: 0,
            next_epoch_starts_at: 0,
            locker_token_mint: Pubkey::default(),
            locker_governor: Pubkey::default(),
        }
    }
}

impl Default for Gauge {
    /// The gauge of a record that is not yet filled in.
    fn default() -> (record: Gauge)
        ensures
            record == (Gauge {
                gaugemeister: Pubkey::spec_default(),
                quarry: Pubkey::spec_default(),
                is_disabled: false,
            }),
    {
        Gauge { gaugemeister: Pubkey::default(), quarry: Pubkey::default(), is_disabled: false }
    }
}

impl Default for GaugeVoter {
    /// The voter of a record that is not yet filled in.
    fn default() -> (record: GaugeVoter)
        ensures
            record == (GaugeVoter {
                gaugemeister: Pubkey::spec_default(),
                escrow: Pubkey::spec_default(),
                owner: Pubkey::spec_default(),
                total_weight: 0,
                weight_change_seqno: 0,
            }),
    {
        GaugeVoter {
            gaugemeister: Pubkey::default(),
            escrow: Pubkey::default(),
            owner: Pubkey::default(),
            total_weight: 0,
            weight_change_seqno: 0,
        }
    }
}

impl Default for GaugeVote {
    /// The vote of a record that is not yet filled in.
    fn default() -> (record: GaugeVote)
        ensures
            record == (GaugeVote {
                gauge_voter: Pubkey::spec_default(),
                gauge: Pubkey::spec_default(),
                weight: 0,
                weight_change_seqno: 0,
            }),
    {
        GaugeVote {
            gauge_voter: Pubkey::default(),
            gauge: Pubkey::default(),
            weight: 0,
            weight_change_seqno: 0,
        }
    }
}

impl Default for EpochGauge {
    /// The epoch gauge of a record that is not yet filled in.
    fn default() -> (record: EpochGauge)
        ensures
            record == (EpochGauge {
                gauge: Pubkey::spec_default(),
                voting_epoch: 0,
                total_power: 0,
            }),
    {
        EpochGauge { gauge: Pubkey::default(), voting_epoch: 0, total_power: 0 }
    }
}

impl Default for EpochGaugeVoter {
    /// The epoch gauge voter of a record that is not yet filled in.
    fn default() -> (record: EpochGaugeVoter)
        ensures
            record == (EpochGaugeVoter {
                gauge_voter: Pubkey::spec_default(),
                voting_epoch: 0,
                weight_change_seqno: 0,
                voting_power: 0,
                allocated_power: 0,
            }),
    {
        EpochGaugeVoter {
            gauge_voter: Pubkey::default(),
            voting_epoch: 0,
            weight_change_seqno: 0,
            voting_power: 0,
            allocated_power: 0,
        }
    }
}

impl Default for EpochGaugeVote {
    /// The epoch gauge vote of a record that is not yet filled in.
    fn default() -> (record: EpochGaugeVote)
        ensures
            record == (EpochGaugeVote { allocated_power: 0 }),
    {
        EpochGaugeVote { allocated_power: 0 }
    }
}

impl Default for GaugeDelegation {
    /// The delegation of a record that is not yet filled in.
    fn default() -> (record: GaugeDelegation)
        ensures
            record == (GaugeDelegation {
                gauge_voter: Pubkey::spec_default(),
                vote_setter: Pubkey::spec_default(),
                vote_committer: Pubkey::spec_default(),
            }),
    {
        GaugeDelegation {
            gauge_voter: Pubkey::default(),
            vote_setter: Pubkey::default(),
            vote_committer: Pubkey::default(),
        }
    }
}

} // verus!
