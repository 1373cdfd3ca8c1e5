//! Resets an epoch gauge voter: takes the snapshot of a voter's voting
//! power anew, if none of it is committed.

use vstd::prelude::*;
use crate::account::Account;
use crate::error::ErrorCode;
use crate::instructions::prepare_epoch_gauge_voter::{
    check_snapshot_keys,
    compute_power_at_next_epoch,
    power_at_next_epoch,
    snapshot_keys_match,
};
use crate::locker::{Escrow, Locker};
use crate::pubkey::Pubkey;
use crate::state::{EpochGaugeVoter, GaugeVoter, Gaugemeister};

verus! {

/// Accounts for taking a snapshot of a voter's voting power anew.
#[derive(Clone, Copy, Debug, PartialEq, Eq)]
pub struct ResetEpochGaugeVoter {
    /// The gaugemeister.
    pub gaugemeister: Account<Gaugemeister>,
    /// The locker.
    pub locker: Account<Locker>,
    /// The escrow.
    pub escrow: Account<Escrow>,
    /// The gauge voter.
    pub gauge_voter: Account<GaugeVoter>,
    /// The epoch gauge voter to reset.
    pub epoch_gauge_voter: Account<EpochGaugeVoter>,
}

/// Record of a snapshot taken anew.
#[derive(Clone, Copy, Debug, PartialEq, Eq)]
pub struct ResetEpochGaugeVoterEvent {
    /// The gaugemeister.
    pub gaugemeister: Pubkey,
    /// The locker.
    pub locker: Pubkey,
    /// The owner of the gauge voter.
    pub gauge_voter_owner: Pubkey,
    /// The voting power of the snapshot before.
    pub prev_voting_power: u64,
    /// The voting power of the snapshot now.
    pub voting_power: u64,
    /// The sequence number of the snapshot before.
    pub prev_weight_change_seqno: u64,
    /// The sequence number of the snapshot now.
    pub weight_change_seqno: u64,
}

impl ResetEpochGaugeVoter {
    /// The voting power that the escrow has when the next epoch starts.
    pub open spec fn spec_power(&self) -> Option<u64> {
        power_at_next_epoch(&self.gaugemeister.data, &self.locker.data, &self.escrow.data)
    }

    /// Calculates the voting power.
    pub fn power(&self) -> (power: Option<u64>)
        ensures
            power == self.spec_power(),
    {
        compute_power_at_next_epoch(&self.gaugemeister.data, &self.locker.data, &self.escrow.data)
    }

    /// Whether the snapshot may be taken anew: the accounts belong together,
    /// the snapshot is of the epoch that is being voted on, and nothing of it
    /// is committed. The first of these that fails gives the error.
    pub open spec fn spec_validate(&self) -> Result<(), ErrorCode> {
        if !snapshot_keys_match(&self.gaugemeister, &self.locker, &self.escrow, &self.gauge_voter)
            || self.epoch_gauge_voter.data.gauge_voter != self.gauge_voter.key {
            Err(ErrorCode::KeyMismatch)
        } else {
            match self.gaugemeister.data.spec_voting_epoch() {
                Err(code) => Err(code),
                Ok(voting_epoch) => if self.epoch_gauge_voter.data.voting_epoch != voting_epoch {
                    Err(ErrorCode::EpochClosed)
                } else if self.epoch_gauge_voter.data.allocated_power != 0 {
                    Err(ErrorCode::AllocatedPowerMustBeZero)
                } else {
                    Ok(())
                },
            }
        }
    }

    /// Checks that the snapshot may be taken anew.
    pub fn validate(&self) -> (result: Result<(), ErrorCode>)
        ensures
            result == self.spec_validate(),
    {
        if !check_snapshot_keys(&self.gaugemeister, &self.locker, &self.escrow, &self.gauge_voter) {
            return Err(ErrorCode::KeyMismatch);
        }
        if self.epoch_gauge_voter.data.gauge_voter != self.gauge_voter.key {
            return Err(ErrorCode::KeyMismatch);
        }
        let voting_epoch = match self.gaugemeister.data.voting_epoch() {
            Ok(voting_epoch) => voting_epoch,
            Err(code) => return Err(code),
        };
        if self.epoch_gauge_voter.data.voting_epoch != voting_epoch {
            return Err(ErrorCode::EpochClosed);
        }
        if self.epoch_gauge_voter.data.allocated_power != 0 {
            return Err(ErrorCode::AllocatedPowerMustBeZero);
        }
        Ok(())
    }

    /// What taking the snapshot anew does, where the escrow layer gives
    /// `voting_power`: the snapshot afterwards, or the reason for refusing.
    /// It is refused while any of the snapshot's power is committed, and
    /// where there is no voting power. Afterwards the snapshot holds the new
    /// power and the voter's sequence number.
    pub open spec fn spec_reset(&self, voting_power: Option<u64>) -> Result<
        EpochGaugeVoter,
        ErrorCode,
    > {
        if self.epoch_gauge_voter.data.allocated_power != 0 {
            Err(ErrorCode::AllocatedPowerMustBeZero)
        } else {
            match voting_power {
                None => Err(ErrorCode::IntegerOverflow),
                Some(power) => Ok(
                    EpochGaugeVoter {
                        weight_change_seqno: self.gauge_voter.data.weight_change_seqno,
                        voting_power: power,
                        ..self.epoch_gauge_voter.data
                    },
                ),
            }
        }
    }

    /// The record of a reset that left the snapshot `snapshot`.
    pub open spec fn reset_event(&self, snapshot: EpochGaugeVoter) -> ResetEpochGaugeVoterEvent {
        ResetEpochGaugeVoterEvent {
            gaugemeister: self.gaugemeister.key,
            locker: self.locker.key,
            gauge_voter_owner: self.gauge_voter.data.owner,
            prev_voting_power: self.epoch_gauge_voter.data.voting_power,
            voting_power: snapshot.voting_power,
            prev_weight_change_seqno: self.epoch_gauge_voter.data.weight_change_seqno,
            weight_change_seqno: snapshot.weight_change_seqno,
        }
    }

    /// Takes the snapshot anew, where the escrow layer gives `voting_power`.
    pub fn reset(&mut self, voting_power: Option<u64>) -> (result: Result<
        ResetEpochGaugeVoterEvent,
        ErrorCode,
    >)
        ensures
            match old(self).spec_reset(voting_power) {
                Ok(snapshot) => {
                    &&& result == Ok::<_, ErrorCode>(old(self).reset_event(snapshot))
                    &&& *final(self) == (ResetEpochGaugeVoter {
                        epoch_gauge_voter: Account {
                            key: old(self).epoch_gauge_voter.key,
                            data: snapshot,
                        },
                        ..*old(self)
                    })
                },
                Err(code) => result == Err::<ResetEpochGaugeVoterEvent, _>(code) && *final(self)
                    == *old(self),
            },
    {
        if self.epoch_gauge_voter.data.allocated_power != 0 {
            return Err(ErrorCode::AllocatedPowerMustBeZero);
        }
        let voting_power = match voting_power {
            Some(power) => power,
            None => return Err(ErrorCode::IntegerOverflow),
        };
        let prev_voting_power = self.epoch_gauge_voter.data.voting_power;
        let prev_weight_change_seqno = self.epoch_gauge_voter.data.weight_change_seqno;
        self.epoch_gauge_voter.data.voting_power = voting_power;
        self.epoch_gauge_voter.data.weight_change_seqno = self.gauge_voter.data.weight_change_seqno;
        Ok(
            ResetEpochGaugeVoterEvent {
                gaugemeister: self.gaugemeister.key,
                locker: self.locker.key,
                gauge_voter_owner: self.gauge_voter.data.owner,
                prev_voting_power,
                voting_power,
                prev_weight_change_seqno,
                weight_change_seqno: self.gauge_voter.data.weight_change_seqno,
            },
        )
    }
}

/// Takes the snapshot in `accounts` anew, with the voting power that the
/// escrow has when the next epoch starts.
pub fn handler(accounts: &mut ResetEpochGaugeVoter) -> (result: Result<
    ResetEpochGaugeVoterEvent,
    ErrorCode,
>)
    ensures
        match old(accounts).spec_reset(old(accounts).spec_power()) {
            Ok(snapshot) => {
                &&& result == Ok::<_, ErrorCode>(old(accounts).reset_event(snapshot))
                &&& *final(accounts) == (ResetEpochGaugeVoter {
                    epoch_gauge_voter: Account {
                        key: old(accounts).epoch_gauge_voter.key,
                        data: snapshot,
                    },
                    ..*old(accounts)
                })
            },
            Err(code) => result == Err::<ResetEpochGaugeVoterEvent, _>(code) && *final(accounts)
                == *old(accounts),
        },
{
    let voting_power = accounts.power();
    accounts.reset(voting_power)
}

} // verus!
