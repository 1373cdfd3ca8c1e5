//! Creates an epoch gauge voter: a snapshot of a voter's voting power.

use vstd::prelude::*;
use crate::account::Account;
use crate::casts::u64_to_i64;
use crate::error::ErrorCode;
use crate::locker::{Escrow, Locker};
use crate::pubkey::Pubkey;
use crate::state::{EpochGaugeVoter, GaugeVoter, Gaugemeister};

verus! {

/// Accounts for taking a snapshot of a voter's voting power.
#[derive(Clone, Copy, Debug, PartialEq, Eq)]
pub struct PrepareEpochGaugeVoter {
    /// The gaugemeister.
    pub gaugemeister: Account<Gaugemeister>,
    /// The locker.
    pub locker: Account<Locker>,
    /// The escrow.
    pub escrow: Account<Escrow>,
    /// The gauge voter.
    pub gauge_voter: Account<GaugeVoter>,
    /// The epoch gauge voter to be created.
    pub epoch_gauge_voter: Account<EpochGaugeVoter>,
}

/// Record of a snapshot of voting power.
#[derive(Clone, Copy, Debug, PartialEq, Eq)]
pub struct PrepareEpochGaugeVoterEvent {
    /// The gaugemeister.
    pub gaugemeister: Pubkey,
    /// The rewarder.
    pub rewarder: Pubkey,
    /// The locker.
    pub locker: Pubkey,
    /// The owner of the gauge voter.
    pub gauge_voter_owner: Pubkey,
    /// The epoch that the voter is voting for.
    pub voting_epoch: u32,
    /// The total amount of voting power.
    pub voting_power: u64,
    /// The voter's sequence number at the time of the snapshot.
    pub weight_change_seqno: u64,
}

/// The voting power that `escrow` has, by the rules of `locker`, when the
/// next epoch of `gaugemeister` starts; nothing where that time exceeds a
/// signed 64-bit number or the escrow layer computes no power.
pub open spec fn power_at_next_epoch(gaugemeister: &Gaugemeister, locker: &Locker, escrow: &Escrow)
    -> Option<u64> {
    if gaugemeister.next_epoch_starts_at <= i64::MAX {
        escrow.power_at(&locker.params, gaugemeister.next_epoch_starts_at as i64)
    } else {
        None
    }
}

/// Whether a snapshot of the voter's power may be taken from the escrow: the
/// locker is the gaugemeister's, and the escrow is the voter's, in that
/// locker, with the voter's owner.
pub open spec fn snapshot_keys_match(
    gaugemeister: &Account<Gaugemeister>,
    locker: &Account<Locker>,
    escrow: &Account<Escrow>,
    gauge_voter: &Account<GaugeVoter>,
) -> bool {
    &&& gaugemeister.data.locker == locker.key
    &&& escrow.key == gauge_voter.data.escrow
    &&& escrow.data.locker == locker.key
    &&& escrow.data.owner == gauge_voter.data.owner
}

/// Checks that a snapshot of the voter's power may be taken from the escrow.
pub fn check_snapshot_keys(
    gaugemeister: &Account<Gaugemeister>,
    locker: &Account<Locker>,
    escrow: &Account<Escrow>,
    gauge_voter: &Account<GaugeVoter>,
) -> (matching: bool)
    ensures
        matching == snapshot_keys_match(gaugemeister, locker, escrow, gauge_voter),
{
    gaugemeister.data.locker == locker.key && escrow.key == gauge_voter.data.escrow
        && escrow.data.locker == locker.key && escrow.data.owner == gauge_voter.data.owner
}

/// Computes the voting power that `escrow` has, by the rules of `locker`,
/// when the next epoch of `gaugemeister` starts.
pub fn compute_power_at_next_epoch(gaugemeister: &Gaugemeister, locker: &Locker, escrow: &Escrow)
    -> (power: Option<u64>)
    ensures
        power == power_at_next_epoch(gaugemeister, locker, escrow),
{
    match u64_to_i64(gaugemeister.next_epoch_starts_at) {
        Some(timestamp) => escrow.voting_power_at_time(&locker.params, timestamp),
        None => None,
    }
}

impl PrepareEpochGaugeVoter {
    /// The voting power that the escrow has when the next epoch starts.
    pub open spec fn spec_power(&self) -> Option<u64> {
        power_at_next_epoch(&self.gaugemeister.data, &self.locker.data, &self.escrow.data)
    }

    /// Calculates the voting power.
    pub fn power(&self) -> (power: Option<u64>)
        ensures
            power == self.spec_power(),
    {
        compute_power_at_next_epoch(&self.gaugemeister.data, &self.locker.data, &self.escrow.data)
    }

    /// Whether the snapshot may be taken.
    pub open spec fn spec_validate(&self) -> Result<(), ErrorCode> {
        if snapshot_keys_match(&self.gaugemeister, &self.locker, &self.escrow, &self.gauge_voter) {
            Ok(())
        } else {
            Err(ErrorCode::KeyMismatch)
        }
    }

    /// Checks that the snapshot may be taken.
    pub fn validate(&self) -> (result: Result<(), ErrorCode>)
        ensures
            result == self.spec_validate(),
    {
        if check_snapshot_keys(&self.gaugemeister, &self.locker, &self.escrow, &self.gauge_voter) {
            Ok(())
        } else {
            Err(ErrorCode::KeyMismatch)
        }
    }

    /// What taking the snapshot does, where the escrow layer gives
    /// `voting_power`: the snapshot, or the reason for refusing. It is
    /// refused where there is no next epoch to vote on, and where there is
    /// no voting power. The snapshot is of the epoch that is being voted on,
    /// carries the voter's sequence number, and has nothing allocated.
    pub open spec fn spec_snapshot(&self, voting_power: Option<u64>) -> Result<
        EpochGaugeVoter,
        ErrorCode,
    > {
        match (self.gaugemeister.data.spec_voting_epoch(), voting_power) {
            (Err(code), _) => Err(code),
            (Ok(_), None) => Err(ErrorCode::IntegerOverflow),
            (Ok(voting_epoch), Some(power)) => Ok(
                EpochGaugeVoter {
                    gauge_voter: self.gauge_voter.key,
                    voting_epoch,
                    weight_change_seqno: self.gauge_voter.data.weight_change_seqno,
                    voting_power: power,
                    allocated_power: 0,
                },
            ),
        }
    }

    /// The record of the snapshot `snapshot`.
    pub open spec fn snapshot_event(&self, snapshot: EpochGaugeVoter) -> PrepareEpochGaugeVoterEvent {
        PrepareEpochGaugeVoterEvent {
            gaugemeister: self.gaugemeister.key,
            rewarder: self.gaugemeister.data.rewarder,
            locker: self.locker.key,
            gauge_voter_owner: self.gauge_voter.data.owner,
            voting_epoch: snapshot.voting_epoch,
            voting_power: snapshot.voting_power,
            weight_change_seqno: snapshot.weight_change_seqno,
        }
    }

    /// Takes the snapshot, where the escrow layer gives `voting_power`.
    pub fn snapshot(&mut self, voting_power: Option<u64>) -> (result: Result<
        PrepareEpochGaugeVoterEvent,
        ErrorCode,
    >)
        ensures
            match old(self).spec_snapshot(voting_power) {
                Ok(snapshot) => {
                    &&& result == Ok::<_, ErrorCode>(old(self).snapshot_event(snapshot))
                    &&& *final(self) == (PrepareEpochGaugeVoter {
                        epoch_gauge_voter: Account {
                            key: old(self).epoch_gauge_voter.key,
                            data: snapshot,
                        },
                        ..*old(self)
                    })
                },
                Err(code) => result == Err::<PrepareEpochGaugeVoterEvent, _>(code) && *final(self)
                    == *old(self),
            },
    {
        let voting_epoch = match self.gaugemeister.data.voting_epoch() {
            Ok(voting_epoch) => voting_epoch,
            Err(code) => return Err(code),
        };
        let voting_power = match voting_power {
            Some(power) => power,
            None => return Err(ErrorCode::IntegerOverflow),
        };
        self.epoch_gauge_voter.data = EpochGaugeVoter {
            gauge_voter: self.gauge_voter.key,
            voting_epoch,
            weight_change_seqno: self.gauge_voter.data.weight_change_seqno,
            voting_power,
            allocated_power: 0,
        };
        Ok(
            PrepareEpochGaugeVoterEvent {
                gaugemeister: self.gaugemeister.key,
                rewarder: self.gaugemeister.data.rewarder,
                locker: self.locker.key,
                gauge_voter_owner: self.gauge_voter.data.owner,
                voting_epoch,
                voting_power,
                weight_change_seqno: self.gauge_voter.data.weight_change_seqno,
            },
        )
    }
}

/// Takes the snapshot in `accounts`, with the voting power that the escrow
/// has when the next epoch starts.
pub fn handler(accounts: &mut PrepareEpochGaugeVoter, _bump: u8) -> (result: Result<
    PrepareEpochGaugeVoterEvent,
    ErrorCode,
>)
    ensures
        match old(accounts).spec_snapshot(old(accounts).spec_power()) {
            Ok(snapshot) => {
                &&& result == Ok::<_, ErrorCode>(old(accounts).snapshot_event(snapshot))
                &&& *final(accounts) == (PrepareEpochGaugeVoter {
                    epoch_gauge_voter: Account {
                        key: old(accounts).epoch_gauge_voter.key,
                        data: snapshot,
                    },
                    ..*old(accounts)
                })
            },
            Err(code) => result == Err::<PrepareEpochGaugeVoterEvent, _>(code) && *final(accounts)
                == *old(accounts),
        },
{
    let voting_power = accounts.power();
    accounts.snapshot(voting_power)
}

} // verus!
