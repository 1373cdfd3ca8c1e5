//! Creates a gauge vote.

use vstd::prelude::*;
use crate::account::Account;
use crate::error::ErrorCode;
use crate::pubkey::Pubkey;
use crate::state::{Gauge, GaugeVote, GaugeVoter};

verus! {

/// Accounts for creating a gauge vote.
#[derive(Clone, Copy, Debug, PartialEq, Eq)]
pub struct CreateGaugeVote {
    /// The gauge vote to be created.
    pub gauge_vote: Account<GaugeVote>,
    /// Gauge voter.
    pub gauge_voter: Account<GaugeVoter>,
    /// Gauge.
    pub gauge: Account<Gauge>,
}

/// Record of a created gauge vote.
#[derive(Clone, Copy, Debug, PartialEq, Eq)]
pub struct GaugeVoteCreateEvent {
    /// The gaugemeister.
    pub gaugemeister: Pubkey,
    /// The quarry being voted on.
    pub quarry: Pubkey,
    /// Owner of the escrow of the gauge voter.
    pub gauge_voter_owner: Pubkey,
    /// The voter's sequence number at the time of creating the vote.
    pub weight_change_seqno: u64,
}

impl CreateGaugeVote {
    /// Whether the vote may be created: voter and gauge are of one
    /// gaugemeister.
    pub open spec fn spec_validate(&self) -> Result<(), ErrorCode> {
        if self.gauge_voter.data.gaugemeister == self.gauge.data.gaugemeister {
            Ok(())
        } else {
            Err(ErrorCode::KeyMismatch)
        }
    }

    /// Checks that the vote may be created.
    pub fn validate(&self) -> (result: Result<(), ErrorCode>)
        ensures
            result == self.spec_validate(),
    {
        if self.gauge_voter.data.gaugemeister != self.gauge.data.gaugemeister {
            return Err(ErrorCode::KeyMismatch);
        }
        Ok(())
    }

    /// The vote that is created: of the voter for the gauge, without weight,
    /// stamped with the voter's sequence number.
    pub open spec fn created(&self) -> GaugeVote {
        GaugeVote {
            gauge_voter: self.gauge_voter.key,
            gauge: self.gauge.key,
            weight: 0,
            weight_change_seqno: self.gauge_voter.data.weight_change_seqno,
        }
    }

    /// The record of the creation.
    pub open spec fn creation_event(&self) -> GaugeVoteCreateEvent {
        GaugeVoteCreateEvent {
            gaugemeister: self.gauge.data.gaugemeister,
            quarry: self.gauge.data.quarry,
            gauge_voter_owner: self.gauge_voter.data.owner,
            weight_change_seqno: self.gauge_voter.data.weight_change_seqno,
        }
    }
}

/// Creates the gauge vote in `accounts`.
pub fn handler(accounts: &mut CreateGaugeVote, _bump: u8) -> (result: Result<
    GaugeVoteCreateEvent,
    ErrorCode,
>)
    ensures
        result == Ok::<_, ErrorCode>(old(accounts).creation_event()),
        *final(accounts) == (CreateGaugeVote {
            gauge_vote: Account { key: old(accounts).gauge_vote.key, data: old(accounts).created() },
            ..*old(accounts)
        }),
{
    accounts.gauge_vote.data = GaugeVote {
        gauge_voter: accounts.gauge_voter.key,
        gauge: accounts.gauge.key,
        weight: 0,
        weight_change_seqno: accounts.gauge_voter.data.weight_change_seqno,
    };
    Ok(
        GaugeVoteCreateEvent {
            gaugemeister: accounts.gauge.data.gaugemeister,
            quarry: accounts.gauge.data.quarry,
            gauge_voter_owner: accounts.gauge_voter.data.owner,
            weight_change_seqno: accounts.gauge_vote.data.weight_change_seqno,
        },
    )
}

} // verus!
