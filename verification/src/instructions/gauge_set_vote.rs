//! Votes for a gauge.

use vstd::prelude::*;
use crate::account::Account;
use crate::error::ErrorCode;
use crate::locker::Escrow;
use crate::pubkey::Pubkey;
use crate::state::{Gauge, GaugeVote, GaugeVoter, Gaugemeister};

verus! {

/// Accounts for setting the weight of a vote.
#[derive(Clone, Copy, Debug, PartialEq, Eq)]
pub struct GaugeSetVote {
    /// The gaugemeister.
    pub gaugemeister: Account<Gaugemeister>,
    /// The gauge.
    pub gauge: Account<Gauge>,
    /// The gauge voter.
    pub gauge_voter: Account<GaugeVoter>,
    /// The gauge vote.
    pub gauge_vote: Account<GaugeVote>,
    /// The escrow.
    pub escrow: Account<Escrow>,
    /// The account that asks for the change: the escrow's vote delegate, or
    /// the vote setter of the voter's delegation.
    pub vote_delegate: Pubkey,
}

/// Record of a changed vote.
#[derive(Clone, Copy, Debug, PartialEq, Eq)]
pub struct SetGaugeVoteEvent {
    /// The gaugemeister.
    pub gaugemeister: Pubkey,
    /// The gauge.
    pub gauge: Pubkey,
    /// The quarry being voted on.
    pub quarry: Pubkey,
    /// Owner of the escrow of the gauge voter.
    pub gauge_voter_owner: Pubkey,
    /// The account that asked for the change.
    pub vote_delegate: Pubkey,
    /// The voter's total weight before the change.
    pub prev_total_weight: u32,
    /// The voter's total weight after the change.
    pub total_weight: u32,
    /// The voter's sequence number after the change.
    pub weight_change_seqno: u64,
}

impl GaugeSetVote {
    /// The voter's total weight once the vote's weight is `new_weight`: the
    /// old weight leaves the total and the new one enters it. Nothing where
    /// the total is below the old weight or the result exceeds 32 bits.
    pub open spec fn spec_next_total_weight(&self, new_weight: u32) -> Option<u32> {
        let next = self.gauge_voter.data.total_weight - self.gauge_vote.data.weight + new_weight;
        if self.gauge_voter.data.total_weight < self.gauge_vote.data.weight || next > u32::MAX {
            None
        } else {
            Some(next as u32)
        }
    }

    /// Computes the voter's total weight once the vote's weight is `new_weight`.
    pub fn next_total_weight(&self, new_weight: u32) -> (total: Option<u32>)
        ensures
            total == self.spec_next_total_weight(new_weight),
    {
        match self.gauge_voter.data.total_weight.checked_sub(self.gauge_vote.data.weight) {
            Some(rest) => rest.checked_add(new_weight),
            None => None,
        }
    }

    /// The accounts after a change of the vote's weight to `weight` that
    /// brings the voter's total to `total_weight`.
    pub open spec fn with_weight(self, weight: u32, total_weight: u32) -> GaugeSetVote {
        GaugeSetVote {
            gauge_voter: Account {
                key: self.gauge_voter.key,
                data: GaugeVoter {
                    total_weight,
                    weight_change_seqno: (self.gauge_voter.data.weight_change_seqno + 1) as u64,
                    ..self.gauge_voter.data
                },
            },
            gauge_vote: Account {
                key: self.gauge_vote.key,
                data: GaugeVote { weight, ..self.gauge_vote.data },
            },
            ..self
        }
    }

    /// The record of a change that brought the voter's total to `total_weight`.
    pub open spec fn change_event(self, total_weight: u32) -> SetGaugeVoteEvent {
        SetGaugeVoteEvent {
            gaugemeister: self.gaugemeister.key,
            gauge: self.gauge.key,
            quarry: self.gauge.data.quarry,
            gauge_voter_owner: self.gauge_voter.data.owner,
            vote_delegate: self.vote_delegate,
            prev_total_weight: self.gauge_voter.data.total_weight,
            total_weight,
            weight_change_seqno: (self.gauge_voter.data.weight_change_seqno + 1) as u64,
        }
    }

    /// What setting the vote's weight to `weight` does: the accounts
    /// afterwards and the record of the change, or the reason for refusing.
    ///
    /// A weight other than zero is refused on a disabled gauge. The weight
    /// that the vote already has changes nothing and leaves no record.
    /// Otherwise the voter's total follows the vote, and the voter's sequence
    /// number goes up by one.
    pub open spec fn spec_set_vote(self, weight: u32) -> Result<
        (GaugeSetVote, Option<SetGaugeVoteEvent>),
        ErrorCode,
    > {
        if weight != 0 && self.gauge.data.is_disabled {
            Err(ErrorCode::CannotVoteGaugeDisabled)
        } else if self.gauge_vote.data.weight == weight {
            Ok((self, None))
        } else {
            match self.spec_next_total_weight(weight) {
                Some(total_weight) if self.gauge_voter.data.weight_change_seqno < u64::MAX => Ok(
                    (self.with_weight(weight, total_weight), Some(self.change_event(total_weight))),
                ),
                _ => Err(ErrorCode::IntegerOverflow),
            }
        }
    }

    /// Sets the weight of the vote.
    pub fn set_vote(&mut self, weight: u32) -> (result: Result<
        Option<SetGaugeVoteEvent>,
        ErrorCode,
    >)
        ensures
            match old(self).spec_set_vote(weight) {
                Ok((after, event)) => result == Ok::<_, ErrorCode>(event) && *final(self) == after,
                Err(code) => result == Err::<Option<SetGaugeVoteEvent>, _>(code) && *final(self)
                    == *old(self),
            },
    {
        if weight != 0 && self.gauge.data.is_disabled {
            return Err(ErrorCode::CannotVoteGaugeDisabled);
        }
        if self.gauge_vote.data.weight == weight {
            return Ok(None);
        }
        let next_total_weight = match self.next_total_weight(weight) {
            Some(total_weight) => total_weight,
            None => return Err(ErrorCode::IntegerOverflow),
        };
        let next_seqno = match self.gauge_voter.data.weight_change_seqno.checked_add(1) {
            Some(seqno) => seqno,
            None => return Err(ErrorCode::IntegerOverflow),
        };
        let prev_total_weight = self.gauge_voter.data.total_weight;
        self.gauge_voter.data.total_weight = next_total_weight;
        self.gauge_voter.data.weight_change_seqno = next_seqno;
        self.gauge_vote.data.weight = weight;
        Ok(
            Some(
                SetGaugeVoteEvent {
                    gaugemeister: self.gaugemeister.key,
                    gauge: self.gauge.key,
                    quarry: self.gauge.data.quarry,
                    gauge_voter_owner: self.gauge_voter.data.owner,
                    vote_delegate: self.vote_delegate,
                    prev_total_weight,
                    total_weight: next_total_weight,
                    weight_change_seqno: next_seqno,
                },
            ),
        )
    }

    /// Whether the accounts belong together: the gauge to the gaugemeister,
    /// the vote to the gauge and to the voter, and the voter to the escrow.
    pub open spec fn keys_match(&self) -> bool {
        &&& self.gaugemeister.key == self.gauge.data.gaugemeister
        &&& self.gauge.key == self.gauge_vote.data.gauge
        &&& self.gauge_voter.key == self.gauge_vote.data.gauge_voter
        &&& self.escrow.key == self.gauge_voter.data.escrow
    }

    /// Checks that the accounts belong together, whoever asks.
    pub fn validate_without_delegate(&self) -> (result: Result<(), ErrorCode>)
        ensures
            result == (if self.keys_match() {
                Ok::<(), ErrorCode>(())
            } else {
                Err(ErrorCode::KeyMismatch)
            }),
    {
        if self.gaugemeister.key != self.gauge.data.gaugemeister {
            return Err(ErrorCode::KeyMismatch);
        }
        if self.gauge.key != self.gauge_vote.data.gauge {
            return Err(ErrorCode::KeyMismatch);
        }
        if self.gauge_voter.key != self.gauge_vote.data.gauge_voter {
            return Err(ErrorCode::KeyMismatch);
        }
        if self.escrow.key != self.gauge_voter.data.escrow {
            return Err(ErrorCode::KeyMismatch);
        }
        Ok(())
    }

    /// Whether the change is in order: the accounts belong together, and the
    /// escrow's vote delegate asks for it.
    pub open spec fn spec_validate(&self) -> Result<(), ErrorCode> {
        if self.keys_match() && self.vote_delegate == self.escrow.data.vote_delegate {
            Ok(())
        } else {
            Err(ErrorCode::KeyMismatch)
        }
    }

    /// Checks that the accounts belong together and that the escrow's vote
    /// delegate asks for the change.
    pub fn validate(&self) -> (result: Result<(), ErrorCode>)
        ensures
            result == self.spec_validate(),
    {
        match self.validate_without_delegate() {
            Ok(()) => {},
            Err(code) => return Err(code),
        }
        if self.vote_delegate != self.escrow.data.vote_delegate {
            return Err(ErrorCode::KeyMismatch);
        }
        Ok(())
    }
}

/// Sets the weight of the vote in `accounts` to `weight`.
pub fn handler(accounts: &mut GaugeSetVote, weight: u32) -> (result: Result<
    Option<SetGaugeVoteEvent>,
    ErrorCode,
>)
    ensures
        match old(accounts).spec_set_vote(weight) {
            Ok((after, event)) => result == Ok::<_, ErrorCode>(event) && *final(accounts) == after,
            Err(code) => result == Err::<Option<SetGaugeVoteEvent>, _>(code) && *final(accounts)
                == *old(accounts),
        },
{
    accounts.set_vote(weight)
}

} // verus!
