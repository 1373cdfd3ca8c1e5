//! What the operations guarantee together.

use vstd::prelude::*;
use crate::account::Account;
use crate::error::ErrorCode;
use crate::instructions::delegated_gauge_commit_vote::DelegatedGaugeCommitVote;
use crate::instructions::delegated_gauge_revert_vote::DelegatedGaugeRevertVote;
use crate::instructions::delegated_gauge_set_vote::DelegatedGaugeSetVote;
use crate::instructions::gauge_commit_vote::GaugeCommitVote;
use crate::instructions::gauge_commit_vote_v2::GaugeCommitVoteV2;
use crate::instructions::gauge_revert_vote::GaugeRevertVote;
use crate::instructions::gauge_set_vote::{GaugeSetVote, SetGaugeVoteEvent};
use crate::instructions::reset_epoch_gauge_voter::ResetEpochGaugeVoter;
use crate::pubkey::Pubkey;
use crate::state::Gauge;

verus! {

/// Setting a vote to the weight that it has changes nothing: whether it is
/// accepted or refused, the accounts stay as they are, with the voter's
/// total weight and sequence number, and there is no record of a change.
pub proof fn lemma_same_weight_changes_nothing(accounts: GaugeSetVote)
    ensures
        match accounts.spec_set_vote(accounts.gauge_vote.data.weight) {
            Ok((after, event)) => after == accounts && event == None::<SetGaugeVoteEvent>,
            Err(_) => true,
        },
{
}

/// A change of weight is accepted exactly if the gauge is enabled or the
/// new weight is zero, the voter's total weight holds the vote's weight
/// and stays within 32 bits, and the sequence number can still grow. It
/// then moves the voter's total by the difference of the weights and
/// raises the sequence number by one.
pub proof fn lemma_change_of_weight(accounts: GaugeSetVote, weight: u32)
    requires
        weight != accounts.gauge_vote.data.weight,
    ensures
        accounts.spec_set_vote(weight) is Ok <==> {
            &&& weight == 0 || !accounts.gauge.data.is_disabled
            &&& accounts.gauge_voter.data.total_weight >= accounts.gauge_vote.data.weight
            &&& accounts.gauge_voter.data.total_weight - accounts.gauge_vote.data.weight + weight
                <= u32::MAX
            &&& accounts.gauge_voter.data.weight_change_seqno < u64::MAX
        },
        accounts.spec_set_vote(weight) matches Ok((after, event)) ==> {
            &&& event is Some
            &&& after.gauge_vote.data.weight == weight
            &&& after.gauge_voter.data.total_weight == accounts.gauge_voter.data.total_weight
                - accounts.gauge_vote.data.weight + weight
            &&& after.gauge_voter.data.weight_change_seqno
                == accounts.gauge_voter.data.weight_change_seqno + 1
        },
{
}

/// Reverting a vote right after it was committed restores both
/// accumulators to what they were before the commit.
pub proof fn lemma_revert_undoes_commit(commit: GaugeCommitVote, revert: GaugeRevertVote)
    requires
        commit.spec_commit_vote() matches Ok((committed, event)) && event is Some && {
            &&& revert.epoch_gauge == committed.epoch_gauge
            &&& revert.epoch_gauge_voter == committed.epoch_gauge_voter
            &&& revert.epoch_gauge_vote == committed.epoch_gauge_vote
        },
    ensures
        revert.spec_revert_vote() matches Ok((reverted, _)) && {
            &&& reverted.epoch_gauge == commit.epoch_gauge
            &&& reverted.epoch_gauge_voter == commit.epoch_gauge_voter
        },
{
}

/// Reverting a vote after another vote was committed on the same
/// accumulators leaves them as if only the other vote had been committed.
pub proof fn lemma_revert_after_other_commit(
    first: GaugeCommitVote,
    second: GaugeCommitVote,
    revert: GaugeRevertVote,
)
    requires
        first.spec_commit_vote() matches Ok((after_first, event)) && event is Some && {
            &&& second.epoch_gauge == after_first.epoch_gauge
            &&& second.epoch_gauge_voter == after_first.epoch_gauge_voter
            &&& revert.epoch_gauge_vote == after_first.epoch_gauge_vote
        },
        second.spec_commit_vote() matches Ok((after_second, _)) && {
            &&& revert.epoch_gauge == after_second.epoch_gauge
            &&& revert.epoch_gauge_voter == after_second.epoch_gauge_voter
        },
    ensures
        revert.spec_revert_vote() matches Ok((reverted, _)) && (GaugeCommitVote {
            epoch_gauge: first.epoch_gauge,
            epoch_gauge_voter: first.epoch_gauge_voter,
            ..second
        }).spec_commit_vote() matches Ok((alone, _)) && {
            &&& reverted.epoch_gauge == alone.epoch_gauge
            &&& reverted.epoch_gauge_voter == alone.epoch_gauge_voter
        },
{
}

/// Once a change of weight was accepted, no vote of the voter can be
/// committed against a snapshot that was taken before the change.
pub proof fn lemma_changed_weights_block_commit(
    set: GaugeSetVote,
    weight: u32,
    commit: GaugeCommitVote,
)
    requires
        set.spec_set_vote(weight) matches Ok((after, event)) && event is Some
            && commit.gauge_voter == after.gauge_voter,
        commit.epoch_gauge_voter.data.weight_change_seqno
            <= set.gauge_voter.data.weight_change_seqno,
    ensures
        commit.spec_validate() is Err,
        forall|v2: GaugeCommitVoteV2|
            v2.spec_common() == commit ==> (#[trigger] v2.spec_validate_without_delegate()) is Err
                && v2.spec_validate() is Err,
        forall|delegated: DelegatedGaugeCommitVote|
            delegated.common.spec_common() == commit ==> (#[trigger] delegated.spec_validate())
                is Err,
{
}

/// A vote is committed only against a snapshot and to an epoch gauge of
/// the epoch that is being voted on, whoever asks.
pub proof fn lemma_commit_is_of_the_voting_epoch(commit: GaugeCommitVote)
    ensures
        commit.spec_validate() is Ok ==> {
            &&& commit.gaugemeister.data.spec_voting_epoch() == Ok::<u32, ErrorCode>(
                commit.epoch_gauge.data.voting_epoch,
            )
            &&& commit.epoch_gauge_voter.data.voting_epoch == commit.epoch_gauge.data.voting_epoch
            &&& commit.epoch_gauge.data.voting_epoch
                == commit.gaugemeister.data.current_rewards_epoch + 1
        },
        commit.keys_match() && !commit.gauge.data.is_disabled
            && commit.epoch_gauge_voter.data.weight_change_seqno
            == commit.gauge_voter.data.weight_change_seqno
            && commit.gaugemeister.data.spec_voting_epoch() == Ok::<u32, ErrorCode>(
            commit.epoch_gauge_voter.data.voting_epoch,
        ) && commit.epoch_gauge.data.voting_epoch != commit.epoch_gauge_voter.data.voting_epoch
            ==> commit.spec_validate() == Err::<(), _>(ErrorCode::EpochGaugeNotVoting),
        forall|v2: GaugeCommitVoteV2|
            v2.spec_common() == commit && commit.spec_validate() is Err ==> (
            #[trigger] v2.spec_validate_without_delegate()) is Err && v2.spec_validate() is Err,
        forall|delegated: DelegatedGaugeCommitVote|
            delegated.common.spec_common() == commit && commit.spec_validate() is Err ==> (
            #[trigger] delegated.spec_validate()) is Err,
{
}

/// A vote is reverted only from a snapshot and an epoch gauge of the epoch
/// that is being voted on, whoever asks.
pub proof fn lemma_revert_is_of_the_voting_epoch(
    revert: GaugeRevertVote,
    vote_address: Option<Pubkey>,
)
    ensures
        revert.spec_validate_with_address(vote_address) is Ok ==> {
            &&& revert.gaugemeister.data.spec_voting_epoch() == Ok::<u32, ErrorCode>(
                revert.epoch_gauge.data.voting_epoch,
            )
            &&& revert.epoch_gauge_voter.data.voting_epoch == revert.epoch_gauge.data.voting_epoch
        },
        forall|delegated: DelegatedGaugeRevertVote|
            delegated.common == revert && revert.spec_validate_without_delegate() is Err ==> (
            #[trigger] delegated.spec_validate()) is Err,
{
}

/// A delegation in which no vote setter or no vote committer is set lets
/// nobody act in that place, not even the one who holds the all-zero
/// address.
pub proof fn lemma_unset_delegation_lets_nobody_act(
    set: DelegatedGaugeSetVote,
    commit: DelegatedGaugeCommitVote,
    revert: DelegatedGaugeRevertVote,
)
    ensures
        set.gauge_delegation.data.vote_setter == Pubkey::spec_default() ==> set.spec_validate()
            is Err,
        commit.gauge_delegation.data.vote_committer == Pubkey::spec_default()
            ==> commit.spec_validate() is Err,
        revert.gauge_delegation.data.vote_committer == Pubkey::spec_default()
            ==> revert.spec_validate() is Err,
{
}

/// A snapshot is taken anew only while none of its power is committed, and
/// then carries the voter's sequence number: votes can be committed
/// against it again.
pub proof fn lemma_reset_makes_snapshot_current(
    reset: ResetEpochGaugeVoter,
    voting_power: Option<u64>,
)
    ensures
        reset.epoch_gauge_voter.data.allocated_power != 0 ==> reset.spec_validate() is Err
            && reset.spec_reset(voting_power) is Err,
        reset.spec_reset(voting_power) matches Ok(snapshot) ==> {
            &&& snapshot.weight_change_seqno == reset.gauge_voter.data.weight_change_seqno
            &&& snapshot.allocated_power == 0
            &&& snapshot.gauge_voter == reset.epoch_gauge_voter.data.gauge_voter
            &&& snapshot.voting_epoch == reset.epoch_gauge_voter.data.voting_epoch
        },
{
}

/// The accounts with the gauge enabled.
pub open spec fn with_gauge_enabled(accounts: GaugeSetVote) -> GaugeSetVote {
    GaugeSetVote {
        gauge: Account { key: accounts.gauge.key, data: Gauge { is_disabled: false, ..accounts.gauge.data } },
        ..accounts
    }
}

/// The gauge of `accounts` with the switch set to `is_disabled`.
pub open spec fn with_gauge_switch(accounts: GaugeRevertVote, is_disabled: bool) -> GaugeRevertVote {
    GaugeRevertVote {
        gauge: Account { key: accounts.gauge.key, data: Gauge { is_disabled, ..accounts.gauge.data } },
        ..accounts
    }
}

/// On a disabled gauge a vote cannot be given weight and cannot be
/// committed, whoever asks.
pub proof fn lemma_disabled_gauge_takes_no_votes(
    set: GaugeSetVote,
    weight: u32,
    commit: GaugeCommitVote,
)
    requires
        set.gauge.data.is_disabled,
        commit.gauge.data.is_disabled,
        weight != 0,
    ensures
        set.spec_set_vote(weight) == Err::<(GaugeSetVote, Option<SetGaugeVoteEvent>), _>(
            ErrorCode::CannotVoteGaugeDisabled,
        ),
        commit.spec_validate() is Err,
        commit.keys_match() ==> commit.spec_validate() == Err::<(), _>(
            ErrorCode::CannotCommitGaugeDisabled,
        ),
        forall|v2: GaugeCommitVoteV2|
            v2.spec_common() == commit ==> (#[trigger] v2.spec_validate_without_delegate()) is Err
                && v2.spec_validate() is Err,
        forall|delegated: DelegatedGaugeCommitVote|
            delegated.common.spec_common() == commit ==> (#[trigger] delegated.spec_validate())
                is Err,
{
}

/// On a disabled gauge a vote's weight can still be set to zero, and a
/// committed vote can still be reverted: both are checked and done as on
/// an enabled gauge.
pub proof fn lemma_disabled_gauge_lets_votes_go(set: GaugeSetVote, revert: GaugeRevertVote)
    requires
        set.gauge.data.is_disabled,
    ensures
        set.spec_validate() == with_gauge_enabled(set).spec_validate(),
        match (set.spec_set_vote(0), with_gauge_enabled(set).spec_set_vote(0)) {
            (Ok((after, event)), Ok((enabled_after, enabled_event))) => {
                &&& with_gauge_enabled(after) == enabled_after
                &&& event == enabled_event
            },
            (Err(code), Err(enabled_code)) => code == enabled_code,
            _ => false,
        },
        set.spec_set_vote(0) is Ok <==> set.gauge_vote.data.weight == 0 || (
        set.gauge_voter.data.total_weight >= set.gauge_vote.data.weight
            && set.gauge_voter.data.weight_change_seqno < u64::MAX),
        forall|vote_address: Option<Pubkey>|
            #![trigger with_gauge_switch(revert, true).spec_validate_with_address(vote_address)]
            with_gauge_switch(revert, true).spec_validate_with_address(vote_address)
                == with_gauge_switch(revert, false).spec_validate_with_address(vote_address),
        with_gauge_switch(revert, true).spec_validate() == with_gauge_switch(
            revert,
            false,
        ).spec_validate(),
        with_gauge_switch(revert, true).spec_revert_vote() is Ok <==> with_gauge_switch(
            revert,
            false,
        ).spec_revert_vote() is Ok,
        revert.spec_revert_vote() is Ok <==> revert.epoch_gauge_voter.data.allocated_power
            >= revert.epoch_gauge_vote.data.allocated_power && revert.epoch_gauge.data.total_power
            >= revert.epoch_gauge_vote.data.allocated_power,
{
}

} // verus!
