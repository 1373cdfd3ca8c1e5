//! What this library reads of the voting escrow layer: the escrows that hold
//! locked stake, the lockers that group them, and the voting power that an
//! escrow has at a point in time.

use vstd::prelude::*;
use crate::pubkey::Pubkey;

verus! {

/// The parameters of a locker that decide the voting power of its escrows.
#[derive(Clone, Copy, Debug, PartialEq, Eq)]
pub struct LockerParams {
    /// The weight of a maximum vote lock relative to the number of tokens locked.
    pub max_stake_vote_multiplier: u8,
    /// Maximum staking duration, in seconds.
    pub max_stake_duration: u64,
}

/// A group of escrows.
#[derive(Clone, Copy, Debug, PartialEq, Eq)]
pub struct Locker {
    /// Mint of the token that is locked in the locker.
    pub token_mint: Pubkey,
    /// Governor associated with the locker.
    pub governor: Pubkey,
    /// Parameters of the locker.
    pub params: LockerParams,
}

/// Locked stake of one owner.
#[derive(Clone, Copy, Debug, PartialEq, Eq)]
pub struct Escrow {
    /// The locker that the escrow is part of.
    pub locker: Pubkey,
    /// The account that may stake into and withdraw from the escrow.
    pub owner: Pubkey,
    /// The account that may vote on behalf of the escrow.
    pub vote_delegate: Pubkey,
    /// Amount of tokens staked.
    pub amount: u64,
    /// When the escrow started, in seconds since the Unix epoch.
    pub escrow_started_at: i64,
    /// When the escrow unlocks, in seconds since the Unix epoch.
    pub escrow_ends_at: i64,
}

/// The voting power that the escrow layer gives, at `timestamp`, to an escrow
/// of `amount` tokens locked from `escrow_started_at` to `escrow_ends_at`, in
/// a locker with the given vote multiplier and maximum duration; nothing
/// where its arithmetic fails.
pub uninterp spec fn escrow_voting_power(
    amount: u64,
    escrow_started_at: i64,
    escrow_ends_at: i64,
    max_stake_vote_multiplier: u8,
    max_stake_duration: u64,
    timestamp: i64,
) -> Option<u64>;

impl Escrow {
    /// The voting power of the escrow at `timestamp`, as the escrow layer
    /// computes it.
    pub open spec fn power_at(&self, params: &LockerParams, timestamp: i64) -> Option<u64> {
        escrow_voting_power(
            self.amount,
            self.escrow_started_at,
            self.escrow_ends_at,
            params.max_stake_vote_multiplier,
            params.max_stake_duration,
            timestamp,
        )
    }

    /// `locked_voter::Escrow::voting_power_at_time`, on an escrow and locker
    /// parameters that hold the given amount, times, multiplier and maximum
    /// duration and are otherwise empty. The result is determined by these
    /// values and the timestamp; the contract gives it a name and claims
    /// nothing else of it.
    #[verifier::external_body]
    pub(crate) fn voting_power_at_time(&self, params: &LockerParams, timestamp: i64) -> (power:
        Option<u64>)
        ensures
            power == escrow_voting_power(
                self.amount,
                self.escrow_started_at,
                self.escrow_ends_at,
                params.max_stake_vote_multiplier,
                params.max_stake_duration,
                timestamp,
            ),
    {
        let escrow = locked_voter::Escrow {
            amount: self.amount,
            escrow_started_at: self.escrow_started_at,
            escrow_ends_at: self.escrow_ends_at,
            ..Default::default()
        };
        let locker_params = locked_voter::LockerParams {
            max_stake_vote_multiplier: params.max_stake_vote_multiplier,
            max_stake_duration: params.max_stake_duration,
            ..Default::default()
        };
        escrow.voting_power_at_time(&locker_params, timestamp)
    }
}

} // verus!
