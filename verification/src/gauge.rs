//! The gauge program: each operation checks its accounts and then runs.
//! An operation that is refused leaves its accounts as they were.

use vstd::prelude::*;
use crate::account::Account;
use crate::error::ErrorCode;
use crate::instructions::create_epoch_gauge;
use crate::instructions::create_epoch_gauge::CreateEpochGauge;
use crate::instructions::create_gauge;
use crate::instructions::create_gauge::{CreateGauge, GaugeCreateEvent};
use crate::instructions::create_gauge_vote;
use crate::instructions::create_gauge_vote::{CreateGaugeVote, GaugeVoteCreateEvent};
use crate::instructions::create_gauge_voter;
use crate::instructions::create_gauge_voter::CreateGaugeVoter;
use crate::instructions::create_gaugemeister;
use crate::instructions::create_gaugemeister::{CreateGaugemeister, GaugemeisterCreateEvent};
use crate::instructions::gauge_commit_vote;
use crate::instructions::gauge_commit_vote::{CommitGaugeVoteEvent, GaugeCommitVote};
use crate::instructions::gauge_disable;
use crate::instructions::gauge_disable::{GaugeDisable, GaugeDisableEvent};
use crate::instructions::gauge_enable;
use crate::instructions::gauge_enable::{foreman_may_switch, GaugeEnable, GaugeEnableEvent};
use crate::instructions::gauge_revert_vote;
use crate::instructions::gauge_revert_vote::{GaugeRevertVote, RevertGaugeVoteEvent};
use crate::instructions::gauge_set_vote;
use crate::instructions::gauge_set_vote::{GaugeSetVote, SetGaugeVoteEvent};
use crate::instructions::prepare_epoch_gauge_voter;
use crate::instructions::prepare_epoch_gauge_voter::{
    PrepareEpochGaugeVoter,
    PrepareEpochGaugeVoterEvent,
};
use crate::instructions::reset_epoch_gauge_voter;
use crate::instructions::reset_epoch_gauge_voter::{
    ResetEpochGaugeVoter,
    ResetEpochGaugeVoterEvent,
};
use crate::instructions::set_gaugemeister_params;
use crate::instructions::set_gaugemeister_params::{
    SetGaugemeisterParams,
    SetGaugemeisterParamsEvent,
};
use crate::instructions::trigger_next_epoch;
use crate::instructions::trigger_next_epoch::{TriggerNextEpoch, TriggerNextEpochEvent};
use crate::pubkey::Pubkey;
use crate::state::{Gauge, Gaugemeister};

verus! {

/// Creates a gaugemeister, at the time `unix_timestamp` in seconds since the
/// Unix epoch.
pub fn create_gaugemeister(
    accounts: &mut CreateGaugemeister,
    bump: u8,
    foreman: Pubkey,
    epoch_duration_seconds: u32,
    first_epoch_starts_at: u64,
    unix_timestamp: i64,
) -> (result: Result<GaugemeisterCreateEvent, ErrorCode>)
    ensures
        match old(accounts).spec_create(
            bump,
            foreman,
            epoch_duration_seconds,
            first_epoch_starts_at,
            unix_timestamp,
        ) {
            Ok(gaugemeister) => {
                &&& result == Ok::<_, ErrorCode>(
                    old(accounts).creation_event(foreman, first_epoch_starts_at),
                )
                &&& *final(accounts) == (CreateGaugemeister {
                    gaugemeister: Account { key: old(accounts).gaugemeister.key, data: gaugemeister },
                    ..*old(accounts)
                })
            },
            Err(code) => result == Err::<GaugemeisterCreateEvent, _>(code) && *final(accounts)
                == *old(accounts),
        },
{
    match accounts.validate() {
        Ok(()) => {},
        Err(code) => return Err(code),
    }
    create_gaugemeister::handler(
        accounts,
        bump,
        foreman,
        epoch_duration_seconds,
        first_epoch_starts_at,
        unix_timestamp,
    )
}

/// Creates a gauge. Anyone may.
pub fn create_gauge(accounts: &mut CreateGauge) -> (result: Result<GaugeCreateEvent, ErrorCode>)
    ensures
        match old(accounts).spec_validate() {
            Ok(()) => {
                &&& result == Ok::<_, ErrorCode>(old(accounts).creation_event())
                &&& *final(accounts) == (CreateGauge {
                    gauge: Account { key: old(accounts).gauge.key, data: old(accounts).created() },
                    ..*old(accounts)
                })
            },
            Err(code) => result == Err::<GaugeCreateEvent, _>(code)
                && *final(accounts) == *old(accounts),
        },
{
    match accounts.validate() {
        Ok(()) => {},
        Err(code) => return Err(code),
    }
    create_gauge::handler(accounts)
}

/// Creates a gauge voter. Anyone may.
pub fn create_gauge_voter(accounts: &mut CreateGaugeVoter, bump: u8) -> (result: Result<
    (),
    ErrorCode,
>)
    ensures
        result == old(accounts).spec_validate(),
        match old(accounts).spec_validate() {
            Ok(()) => *final(accounts) == (CreateGaugeVoter {
                gauge_voter: Account {
                    key: old(accounts).gauge_voter.key,
                    data: old(accounts).created(),
                },
                ..*old(accounts)
            }),
            Err(_) => *final(accounts) == *old(accounts),
        },
{
    match accounts.validate() {
        Ok(()) => {},
        Err(code) => return Err(code),
    }
    create_gauge_voter::handler(accounts, bump)
}

/// Creates a gauge vote. Anyone may.
pub fn create_gauge_vote(accounts: &mut CreateGaugeVote, bump: u8) -> (result: Result<
    GaugeVoteCreateEvent,
    ErrorCode,
>)
    ensures
        match old(accounts).spec_validate() {
            Ok(()) => {
                &&& result == Ok::<_, ErrorCode>(old(accounts).creation_event())
                &&& *final(accounts) == (CreateGaugeVote {
                    gauge_vote: Account {
                        key: old(accounts).gauge_vote.key,
                        data: old(accounts).created(),
                    },
                    ..*old(accounts)
                })
            },
            Err(code) => result == Err::<GaugeVoteCreateEvent, _>(code) && *final(accounts)
                == *old(accounts),
        },
{
    match accounts.validate() {
        Ok(()) => {},
        Err(code) => return Err(code),
    }
    create_gauge_vote::handler(accounts, bump)
}

/// Creates an epoch gauge. Anyone may.
pub fn create_epoch_gauge(accounts: &mut CreateEpochGauge, bump: u8, voting_epoch: u32) -> (result:
    Result<(), ErrorCode>)
    ensures
        result == Ok::<(), ErrorCode>(()),
        *final(accounts) == (CreateEpochGauge {
            epoch_gauge: Account {
                key: old(accounts).epoch_gauge.key,
                data: old(accounts).created(voting_epoch),
            },
            ..*old(accounts)
        }),
{
    match accounts.validate() {
        Ok(()) => {},
        Err(code) => return Err(code),
    }
    create_epoch_gauge::handler(accounts, bump, voting_epoch)
}

/// Creates an epoch gauge voter: takes a snapshot of the voter's voting
/// power for the epoch that is being voted on. Anyone may.
pub fn prepare_epoch_gauge_voter(accounts: &mut PrepareEpochGaugeVoter, bump: u8) -> (result:
    Result<PrepareEpochGaugeVoterEvent, ErrorCode>)
    ensures
        match old(accounts).spec_validate() {
            Err(code) => result == Err::<PrepareEpochGaugeVoterEvent, _>(code) && *final(accounts)
                == *old(accounts),
            Ok(()) => match old(accounts).spec_snapshot(old(accounts).spec_power()) {
                Ok(snapshot) => {
                    &&& result == Ok::<_, ErrorCode>(old(accounts).snapshot_event(snapshot))
                    &&& *final(accounts) == (PrepareEpochGaugeVoter {
                        epoch_gauge_voter: Account {
                            key: old(accounts).epoch_gauge_voter.key,
                            data: snapshot,
                        },
                        ..*old(accounts)
                    })
                },
                Err(code) => result == Err::<PrepareEpochGaugeVoterEvent, _>(code)
                    && *final(accounts) == *old(accounts),
            },
        },
{
    match accounts.validate() {
        Ok(()) => {},
        Err(code) => return Err(code),
    }
    prepare_epoch_gauge_voter::handler(accounts, bump)
}

/// Resets an epoch gauge voter: takes the snapshot of the voter's voting
/// power anew, if none of it is committed. Anyone may.
pub fn reset_epoch_gauge_voter(accounts: &mut ResetEpochGaugeVoter) -> (result: Result<
    ResetEpochGaugeVoterEvent,
    ErrorCode,
>)
    ensures
        match old(accounts).spec_validate() {
            Err(code) => result == Err::<ResetEpochGaugeVoterEvent, _>(code) && *final(accounts)
                == *old(accounts),
            Ok(()) => match old(accounts).spec_reset(old(accounts).spec_power()) {
                Ok(snapshot) => {
                    &&& result == Ok::<_, ErrorCode>(old(accounts).reset_event(snapshot))
                    &&& *final(accounts) == (ResetEpochGaugeVoter {
                        epoch_gauge_voter: Account {
                            key: old(accounts).epoch_gauge_voter.key,
                            data: snapshot,
                        },
                        ..*old(accounts)
                    })
                },
                Err(code) => result == Err::<ResetEpochGaugeVoterEvent, _>(code)
                    && *final(accounts) == *old(accounts),
            },
        },
{
    match accounts.validate() {
        Ok(()) => {},
        Err(code) => return Err(code),
    }
    reset_epoch_gauge_voter::handler(accounts)
}

/// Sets the weight of a vote. Only the escrow's vote delegate may.
pub fn gauge_set_vote(accounts: &mut GaugeSetVote, weight: u32) -> (result: Result<
    Option<SetGaugeVoteEvent>,
    ErrorCode,
>)
    ensures
        match old(accounts).spec_validate() {
            Err(code) => result == Err::<Option<SetGaugeVoteEvent>, _>(code) && *final(accounts)
                == *old(accounts),
            Ok(()) => match old(accounts).spec_set_vote(weight) {
                Ok((after, event)) => result == Ok::<_, ErrorCode>(event) && *final(accounts)
                    == after,
                Err(code) => result == Err::<Option<SetGaugeVoteEvent>, _>(code)
                    && *final(accounts) == *old(accounts),
            },
        },
{
    match accounts.validate() {
        Ok(()) => {},
        Err(code) => return Err(code),
    }
    gauge_set_vote::handler(accounts, weight)
}

/// Commits a vote. Anyone may, for any voter's vote.
pub fn gauge_commit_vote(accounts: &mut GaugeCommitVote, _vote_bump: u8) -> (result: Result<
    Option<CommitGaugeVoteEvent>,
    ErrorCode,
>)
    ensures
        match old(accounts).spec_validate() {
            Err(code) => result == Err::<Option<CommitGaugeVoteEvent>, _>(code) && *final(accounts)
                == *old(accounts),
            Ok(()) => match old(accounts).spec_commit_vote() {
                Ok((after, event)) => result == Ok::<_, ErrorCode>(event) && *final(accounts)
                    == after,
                Err(code) => result == Err::<Option<CommitGaugeVoteEvent>, _>(code)
                    && *final(accounts) == *old(accounts),
            },
        },
{
    match accounts.validate() {
        Ok(()) => {},
        Err(code) => return Err(code),
    }
    gauge_commit_vote::handler(accounts)
}

/// Reverts a committed vote. Only the escrow's vote delegate may.
pub fn gauge_revert_vote(accounts: &mut GaugeRevertVote) -> (result: Result<
    RevertGaugeVoteEvent,
    ErrorCode,
>)
    ensures
        match old(accounts).spec_validate() {
            Err(code) => result == Err::<RevertGaugeVoteEvent, _>(code)
                && *final(accounts) == *old(accounts),
            Ok(()) => match old(accounts).spec_revert_vote() {
                Ok((after, event)) => result == Ok::<_, ErrorCode>(event) && *final(accounts)
                    == after,
                Err(code) => result == Err::<RevertGaugeVoteEvent, _>(code) && *final(accounts)
                    == *old(accounts),
            },
        },
{
    match accounts.validate() {
        Ok(()) => {},
        Err(code) => return Err(code),
    }
    gauge_revert_vote::handler(accounts)
}

/// Enables a gauge. Only the foreman may.
pub fn gauge_enable(accounts: &mut GaugeEnable) -> (result: Result<GaugeEnableEvent, ErrorCode>)
    ensures
        match foreman_may_switch(
            &old(accounts).gaugemeister,
            &old(accounts).gauge,
            old(accounts).foreman,
        ) {
            Ok(()) => {
                &&& result == Ok::<_, ErrorCode>(
                    (GaugeEnableEvent {
                        gaugemeister: old(accounts).gaugemeister.key,
                        gauge: old(accounts).gauge.key,
                        foreman: old(accounts).foreman,
                    }),
                )
                &&& *final(accounts) == (GaugeEnable {
                    gauge: Account {
                        key: old(accounts).gauge.key,
                        data: Gauge { is_disabled: false, ..old(accounts).gauge.data },
                    },
                    ..*old(accounts)
                })
            },
            Err(code) => result == Err::<GaugeEnableEvent, _>(code)
                && *final(accounts) == *old(accounts),
        },
{
    match accounts.validate() {
        Ok(()) => {},
        Err(code) => return Err(code),
    }
    gauge_enable::handler(accounts)
}

/// Disables a gauge. Only the foreman may.
pub fn gauge_disable(accounts: &mut GaugeDisable) -> (result: Result<GaugeDisableEvent, ErrorCode>)
    ensures
        match foreman_may_switch(
            &old(accounts).gaugemeister,
            &old(accounts).gauge,
            old(accounts).foreman,
        ) {
            Ok(()) => {
                &&& result == Ok::<_, ErrorCode>(
                    (GaugeDisableEvent {
                        gaugemeister: old(accounts).gaugemeister.key,
                        gauge: old(accounts).gauge.key,
                        foreman: old(accounts).foreman,
                    }),
                )
                &&& *final(accounts) == (GaugeDisable {
                    gauge: Account {
                        key: old(accounts).gauge.key,
                        data: Gauge { is_disabled: true, ..old(accounts).gauge.data },
                    },
                    ..*old(accounts)
                })
            },
            Err(code) => result == Err::<GaugeDisableEvent, _>(code)
                && *final(accounts) == *old(accounts),
        },
{
    match accounts.validate() {
        Ok(()) => {},
        Err(code) => return Err(code),
    }
    gauge_disable::handler(accounts)
}

/// Triggers the next epoch, at the time `unix_timestamp` in seconds since
/// the Unix epoch. Anyone may, once the start of the next epoch is reached.
pub fn trigger_next_epoch(accounts: &mut TriggerNextEpoch, unix_timestamp: i64) -> (result: Result<
    TriggerNextEpochEvent,
    ErrorCode,
>)
    ensures
        match (old(accounts).spec_validate(unix_timestamp), old(accounts).advanced()) {
            (Err(code), _) => result == Err::<TriggerNextEpochEvent, _>(code) && *final(accounts)
                == *old(accounts),
            (Ok(()), None) => result == Err::<TriggerNextEpochEvent, _>(
                ErrorCode::IntegerOverflow,
            ) && *final(accounts) == *old(accounts),
            (Ok(()), Some(gaugemeister)) => {
                &&& result == Ok::<_, ErrorCode>(
                    (TriggerNextEpochEvent {
                        gaugemeister: old(accounts).gaugemeister.key,
                        current_rewards_epoch: gaugemeister.current_rewards_epoch,
                        next_epoch_starts_at: gaugemeister.next_epoch_starts_at,
                    }),
                )
                &&& *final(accounts) == (TriggerNextEpoch {
                    gaugemeister: Account { key: old(accounts).gaugemeister.key, data: gaugemeister },
                })
            },
        },
{
    match accounts.validate(unix_timestamp) {
        Ok(()) => {},
        Err(code) => return Err(code),
    }
    trigger_next_epoch::handler(accounts)
}

/// Sets new parameters on the gaugemeister. Only the foreman may.
pub fn set_gaugemeister_params(
    accounts: &mut SetGaugemeisterParams,
    new_epoch_duration_seconds: u32,
    new_foreman: Pubkey,
) -> (result: Result<SetGaugemeisterParamsEvent, ErrorCode>)
    ensures
        match old(accounts).spec_validate() {
            Ok(()) => {
                &&& result == Ok::<_, ErrorCode>(
                    (SetGaugemeisterParamsEvent {
                        gaugemeister: old(accounts).gaugemeister.key,
                        prev_foreman: old(accounts).gaugemeister.data.foreman,
                        new_foreman,
                        prev_epoch_duration_seconds: old(accounts).gaugemeister.data.epoch_duration_seconds,
                        new_epoch_duration_seconds,
                    }),
                )
                &&& *final(accounts) == (SetGaugemeisterParams {
                    gaugemeister: Account {
                        key: old(accounts).gaugemeister.key,
                        data: Gaugemeister {
                            epoch_duration_seconds: new_epoch_duration_seconds,
                            foreman: new_foreman,
                            ..old(accounts).gaugemeister.data
                        },
                    },
                    ..*old(accounts)
                })
            },
            Err(code) => result == Err::<SetGaugemeisterParamsEvent, _>(code) && *final(accounts)
                == *old(accounts),
        },
{
    match accounts.validate() {
        Ok(()) => {},
        Err(code) => return Err(code),
    }
    set_gaugemeister_params::handler(accounts, new_epoch_duration_seconds, new_foreman)
}

} // verus!
