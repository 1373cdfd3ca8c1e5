//! What holds of the ledger across operations.

use vstd::prelude::*;
use crate::account::Account;
use crate::ledger::power::{lemma_commit_conserves_power, lemma_commitment_at};
use crate::ledger::view::{
    commitment_index,
    committed_by_voter,
    committed_to_gauge,
    get,
    has_key,
    index_of,
    is_committed,
    lemma_get_at,
    lemma_get_found,
    lemma_put_account,
    power_for_gauge,
    power_of_voter,
    put,
    total_weight,
    weight_for,
    Commitment,
    LedgerView,
};
use crate::ledger::weights::{Asking, VoteKeys};
use crate::instructions::gauge_commit_vote::GaugeCommitVote;
use crate::pubkey::Pubkey;
use crate::state::{EpochGauge, EpochGaugeVote, EpochGaugeVoter, GaugeVoter};
use crate::sums::lemma_sum_holds_term;

verus! {

/// The total weight of a voter that the ledger holds is the sum of the
/// weights of the voter's votes.
pub proof fn lemma_weight_conservation(ledger: LedgerView, gauge_voter: Account<GaugeVoter>)
    requires
        ledger.wf(),
        get(ledger.gauge_voters, gauge_voter.key) == Some(gauge_voter),
    ensures
        gauge_voter.data.total_weight == total_weight(ledger.gauge_votes, gauge_voter.key),
{
    lemma_get_found(ledger.gauge_voters, gauge_voter.key);
}

/// The power that a snapshot in the ledger has allocated is the sum of the
/// power that its voter has committed for its epoch.
pub proof fn lemma_voter_power_conservation(ledger: LedgerView, snapshot: Account<EpochGaugeVoter>)
    requires
        ledger.wf(),
        get(ledger.epoch_gauge_voters, snapshot.key) == Some(snapshot),
    ensures
        snapshot.data.allocated_power == committed_by_voter(
            ledger.commitments,
            snapshot.data.gauge_voter,
            snapshot.data.voting_epoch,
        ),
{
    lemma_get_found(ledger.epoch_gauge_voters, snapshot.key);
}

/// No snapshot in the ledger has more power allocated than it has.
pub proof fn lemma_allocation_within_power(ledger: LedgerView, snapshot: Account<EpochGaugeVoter>)
    requires
        ledger.wf(),
        get(ledger.epoch_gauge_voters, snapshot.key) == Some(snapshot),
    ensures
        snapshot.data.allocated_power <= snapshot.data.voting_power,
{
    lemma_get_found(ledger.epoch_gauge_voters, snapshot.key);
}

/// The total power of an epoch gauge in the ledger is the sum of the power
/// that is committed to its gauge for its epoch.
pub proof fn lemma_gauge_power_conservation(ledger: LedgerView, epoch_gauge: Account<EpochGauge>)
    requires
        ledger.wf(),
        get(ledger.epoch_gauges, epoch_gauge.key) == Some(epoch_gauge),
    ensures
        epoch_gauge.data.total_power == committed_to_gauge(
            ledger.commitments,
            epoch_gauge.data.gauge,
            epoch_gauge.data.voting_epoch,
        ),
{
    lemma_get_found(ledger.epoch_gauges, epoch_gauge.key);
}

/// Once a change of a vote's weight was accepted, no vote can be committed
/// against a snapshot of the voter that the ledger held before the change.
pub proof fn lemma_change_of_weight_blocks_commits(
    ledger: LedgerView,
    keys: VoteKeys,
    asking: Asking,
    weight: u32,
    commit_keys: VoteKeys,
    epoch_gauge: Pubkey,
    snapshot: Pubkey,
)
    requires
        ledger.wf(),
        ledger.gauge_set_vote(keys, asking, weight) matches Ok((_, event))
            && event is Some,
        get(ledger.epoch_gauge_voters, snapshot) matches Some(held) && held.data.gauge_voter
            == keys.gauge_voter,
    ensures
        ledger.gauge_set_vote(keys, asking, weight) matches Ok((changed, _))
            && changed.gauge_commit_vote(commit_keys, epoch_gauge, snapshot) is Err,
{
    let changed = ledger.gauge_set_vote(keys, asking, weight)->Ok_0.0;
    let accounts = ledger.set_vote_accounts(keys, asking).unwrap();
    let after = accounts.spec_set_vote(weight)->Ok_0.0;
    lemma_get_found(ledger.gauge_voters, keys.gauge_voter);
    lemma_get_found(ledger.gauge_votes, keys.gauge_vote);
    lemma_get_found(ledger.epoch_gauge_voters, snapshot);
    lemma_put_account(ledger.gauge_voters, after.gauge_voter);
    lemma_put_account(ledger.gauge_votes, after.gauge_vote);
    let held = get(ledger.epoch_gauge_voters, snapshot).unwrap();
    assert(held.data.weight_change_seqno <= accounts.gauge_voter.data.weight_change_seqno);
    assert(get(changed.gauge_voters, keys.gauge_voter) == Some(after.gauge_voter));
}

/// In the ledger, the weight of a vote can always be set to zero by the one
/// who may set it, until the voter's sequence number has run out: the
/// voter's total weight holds the weight of every vote of the voter.
pub proof fn lemma_clearing_a_vote_is_owed(ledger: LedgerView, keys: VoteKeys, asking: Asking)
    requires
        ledger.wf(),
        ledger.set_vote_accounts(keys, asking) matches Some(accounts) && accounts.keys_match()
            && accounts.gauge_voter.data.weight_change_seqno < u64::MAX,
    ensures
        ledger.set_vote_accounts(keys, asking) matches Some(accounts) && accounts.spec_set_vote(0)
            is Ok,
{
    let accounts = ledger.set_vote_accounts(keys, asking).unwrap();
    lemma_get_found(ledger.gauge_voters, keys.gauge_voter);
    lemma_get_found(ledger.gauge_votes, keys.gauge_vote);
    let term = weight_for(accounts.gauge_voter.key);
    assert forall|i: int| 0 <= i < ledger.gauge_votes.len() implies term(
        #[trigger] ledger.gauge_votes[i],
    ) >= 0 by {}
    lemma_sum_holds_term(ledger.gauge_votes, index_of(ledger.gauge_votes, keys.gauge_vote), term);
}

/// In the ledger, a committed vote can always be reverted by the one who
/// may revert it: both accumulators hold the power of every commitment
/// that went into them.
pub proof fn lemma_revert_is_owed(
    ledger: LedgerView,
    keys: VoteKeys,
    epoch_gauge: Pubkey,
    snapshot: Pubkey,
    asking: Asking,
)
    requires
        ledger.wf(),
        ledger.revert_accounts(keys, epoch_gauge, snapshot, asking) matches Ok((accounts, _))
            && accounts.spec_validate_without_delegate() is Ok,
    ensures
        ledger.revert_accounts(keys, epoch_gauge, snapshot, asking) matches Ok((accounts, _))
            && accounts.spec_revert_vote() is Ok,
{
    let (accounts, at) = ledger.revert_accounts(keys, epoch_gauge, snapshot, asking)->Ok_0;
    lemma_get_found(ledger.gaugemeisters, keys.gaugemeister);
    lemma_get_found(ledger.gauge_votes, keys.gauge_vote);
    lemma_get_found(ledger.epoch_gauges, epoch_gauge);
    lemma_get_found(ledger.epoch_gauge_voters, snapshot);
    let commitment = ledger.commitments[at];
    let by_voter = power_of_voter(
        accounts.epoch_gauge_voter.data.gauge_voter,
        accounts.epoch_gauge_voter.data.voting_epoch,
    );
    let for_gauge = power_for_gauge(
        accounts.epoch_gauge.data.gauge,
        accounts.epoch_gauge.data.voting_epoch,
    );
    assert forall|i: int| 0 <= i < ledger.commitments.len() implies by_voter(
        #[trigger] ledger.commitments[i],
    ) >= 0 && for_gauge(ledger.commitments[i]) >= 0 by {}
    lemma_sum_holds_term(ledger.commitments, at, by_voter);
    lemma_sum_holds_term(ledger.commitments, at, for_gauge);
    assert(get(ledger.gauge_votes, commitment.gauge_vote) == Some(accounts.gauge_vote));
}

/// The total power of an epoch gauge of another epoch than the one that is
/// being voted on is final: no vote can be committed to it, by anyone, and
/// none can be reverted from it.
pub proof fn lemma_settled_epoch_gauge_is_final(
    ledger: LedgerView,
    keys: VoteKeys,
    epoch_gauge: Pubkey,
    snapshot: Pubkey,
    asking: Asking,
)
    requires
        ledger.wf(),
        get(ledger.gaugemeisters, keys.gaugemeister) matches Some(gaugemeister) && get(
            ledger.epoch_gauges,
            epoch_gauge,
        ) matches Some(settled) && gaugemeister.data.spec_voting_epoch() != Ok::<
            u32,
            crate::error::ErrorCode,
        >(settled.data.voting_epoch),
    ensures
        ledger.gauge_commit_vote(keys, epoch_gauge, snapshot) is Err,
        ledger.gauge_commit_vote_v2(keys, epoch_gauge, snapshot, asking) is Err,
        forall|gauge_delegation: Pubkey|
            (#[trigger] ledger.delegated_gauge_commit_vote(
                keys,
                epoch_gauge,
                snapshot,
                gauge_delegation,
                asking,
            )) is Err,
        ledger.gauge_revert_vote(keys, epoch_gauge, snapshot, asking) is Err,
        forall|gauge_delegation: Pubkey|
            (#[trigger] ledger.delegated_gauge_revert_vote(
                keys,
                epoch_gauge,
                snapshot,
                gauge_delegation,
                asking,
            )) is Err,
{
}

/// Replacing a record by another and then by what was there leaves the
/// records as they were.
pub proof fn lemma_put_back<T>(accounts: Seq<Account<T>>, account: Account<T>)
    requires
        crate::ledger::view::distinct_keys(accounts),
        has_key(accounts, account.key),
    ensures
        put(put(accounts, account), get(accounts, account.key).unwrap()) == accounts,
{
    let at = index_of(accounts, account.key);
    lemma_get_found(accounts, account.key);
    lemma_put_account(accounts, account);
    lemma_get_at(put(accounts, account), at);
    assert(put(put(accounts, account), accounts[at]) =~= accounts);
}

/// Reverting a vote right after it was committed leaves the ledger as it
/// was before the commit: both accumulators are restored, and the vote is
/// not committed.
pub proof fn lemma_commit_then_revert_restores(
    ledger: LedgerView,
    keys: VoteKeys,
    epoch_gauge: Pubkey,
    snapshot: Pubkey,
    asking: Asking,
)
    requires
        ledger.wf(),
        ledger.gauge_commit_vote(keys, epoch_gauge, snapshot) matches Ok((committed, event))
            && event is Some && committed.gauge_revert_vote(keys, epoch_gauge, snapshot, asking)
            is Ok,
    ensures
        ledger.gauge_commit_vote(keys, epoch_gauge, snapshot) matches Ok((committed, _))
            && committed.gauge_revert_vote(keys, epoch_gauge, snapshot, asking) matches Ok(
            (reverted, _),
        ) && reverted == ledger && !is_committed(
            reverted.commitments,
            keys.gauge_vote,
            get(ledger.epoch_gauge_voters, snapshot).unwrap().data.voting_epoch,
        ),
{
    let committed = ledger.gauge_commit_vote(keys, epoch_gauge, snapshot)->Ok_0.0;
    let reverted = committed.gauge_revert_vote(keys, epoch_gauge, snapshot, asking)->Ok_0.0;
    let gaugemeister = get(ledger.gaugemeisters, keys.gaugemeister).unwrap();
    let gauge = get(ledger.gauges, keys.gauge).unwrap();
    let gauge_voter = get(ledger.gauge_voters, keys.gauge_voter).unwrap();
    let gauge_vote = get(ledger.gauge_votes, keys.gauge_vote).unwrap();
    let held_gauge = get(ledger.epoch_gauges, epoch_gauge).unwrap();
    let held_snapshot = get(ledger.epoch_gauge_voters, snapshot).unwrap();
    lemma_get_found(ledger.gaugemeisters, keys.gaugemeister);
    lemma_get_found(ledger.gauges, keys.gauge);
    lemma_get_found(ledger.gauge_voters, keys.gauge_voter);
    lemma_get_found(ledger.gauge_votes, keys.gauge_vote);
    lemma_get_found(ledger.epoch_gauges, epoch_gauge);
    lemma_get_found(ledger.epoch_gauge_voters, snapshot);
    let voting_epoch = held_snapshot.data.voting_epoch;
    let key = EpochGaugeVote::spec_find_program_address(gauge_vote.key, voting_epoch)->Some_0.0;
    let accounts = GaugeCommitVote {
        gaugemeister,
        gauge,
        gauge_voter,
        gauge_vote,
        epoch_gauge: held_gauge,
        epoch_gauge_voter: held_snapshot,
        epoch_gauge_vote: Account { key, data: EpochGaugeVote { allocated_power: 0 } },
    };
    let after = accounts.spec_commit_vote()->Ok_0.0;
    let commitment = Commitment {
        key,
        gauge_vote: gauge_vote.key,
        gauge: gauge.key,
        gauge_voter: gauge_voter.key,
        voting_epoch,
        vote: after.epoch_gauge_vote.data,
    };
    assert(committed.commitments == ledger.commitments.push(commitment));
    assert(committed.epoch_gauges == put(ledger.epoch_gauges, after.epoch_gauge));
    assert(committed.epoch_gauge_voters == put(ledger.epoch_gauge_voters, after.epoch_gauge_voter));
    lemma_put_account(ledger.epoch_gauges, after.epoch_gauge);
    lemma_put_account(ledger.epoch_gauge_voters, after.epoch_gauge_voter);
    lemma_commit_conserves_power(ledger, after.epoch_gauge, after.epoch_gauge_voter, commitment);
    assert(committed.records_in_order());
    assert(committed.commitments[ledger.commitments.len() as int] == commitment);
    lemma_commitment_at(committed, ledger.commitments.len() as int);
    assert(committed.commitments.remove(ledger.commitments.len() as int) =~= ledger.commitments);
    lemma_put_back(ledger.epoch_gauges, after.epoch_gauge);
    lemma_put_back(ledger.epoch_gauge_voters, after.epoch_gauge_voter);
    assert(reverted.commitments == ledger.commitments);
    assert(reverted.epoch_gauges == ledger.epoch_gauges);
    assert(reverted.epoch_gauge_voters == ledger.epoch_gauge_voters);
    if is_committed(ledger.commitments, keys.gauge_vote, voting_epoch) {
        let at = commitment_index(ledger.commitments, keys.gauge_vote, voting_epoch);
        assert(ledger.commitments[at].key == commitment.key);
    }
}

} // verus!
