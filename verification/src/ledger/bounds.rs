//! Why no snapshot has more power allocated than it has.
//!
//! Votes are committed against a snapshot only while the snapshot carries
//! the sequence number of its voter, that is, while the weights are those
//! that the earlier commitments against it were made with. Every such
//! commitment holds at most the share of its vote, and the shares of
//! different votes of one voter add up to at most the whole.

use vstd::prelude::*;
use crate::account::Account;
use crate::address::address_of;
use crate::instructions::gauge_commit_vote::vote_shares;
use crate::ledger::power::lemma_commitment_at;
use crate::ledger::view::{
    commitment_index,
    commits,
    committed_by_voter,
    committed_weight,
    get,
    has_commitment_at,
    has_key,
    index_of,
    is_committed,
    lemma_get_at,
    lemma_get_found,
    lemma_push_account,
    lemma_put_account,
    power_of_voter,
    put,
    total_weight,
    weight_for,
    weight_if_committed,
    weight_of,
    weight_of_commitment,
    weight_of_committed_votes,
    Commitment,
    LedgerView,
};
use crate::pubkey::Pubkey;
use crate::state::{EpochGauge, EpochGaugeVote, EpochGaugeVoter, GaugeVote, GaugeVoter};
use crate::sums::{
    lemma_sum_change_at,
    lemma_sum_holds_term,
    lemma_sum_le,
    lemma_sum_push,
    lemma_sum_remove,
    lemma_sum_same_terms,
    lemma_sum_scaled_le,
    lemma_sum_update,
    lemma_sum_zero,
    sum,
};

verus! {

/// The share of a vote, times the total weight, is at most the voting power
/// times the weight of the vote: shares are rounded down.
pub proof fn lemma_share_is_rounded_down(voting_power: u64, weight: u32, total_weight: u32)
    requires
        vote_shares(voting_power, weight, total_weight) is Some,
    ensures
        vote_shares(voting_power, weight, total_weight).unwrap() * total_weight <= voting_power
            * weight,
{
    if weight != 0 {
        let product = voting_power * weight;
        let divisor = total_weight as int;
        assert(0 <= product) by (nonlinear_arith)
            requires
                product == voting_power * weight,
        ;
        assert(divisor != 0);
        let shares = product / divisor;
        assert(shares * divisor <= product && 0 <= shares) by (nonlinear_arith)
            requires
                0 <= product,
                0 < divisor,
                shares == product / divisor,
        ;
        assert(vote_shares(voting_power, weight, total_weight).unwrap() == shares);
    } else {
        let shares = vote_shares(voting_power, weight, total_weight).unwrap();
        assert(voting_power * weight == 0 && shares * total_weight == 0) by (nonlinear_arith)
            requires
                weight == 0,
                shares == 0,
        ;
    }
}

/// A commitment more makes a vote committed for an epoch if it is of that
/// vote and epoch, and leaves the others as they were.
pub proof fn lemma_committed_after_push(
    commitments: Seq<Commitment>,
    commitment: Commitment,
    gauge_vote: Pubkey,
    voting_epoch: u32,
)
    ensures
        is_committed(commitments.push(commitment), gauge_vote, voting_epoch) == (is_committed(
            commitments,
            gauge_vote,
            voting_epoch,
        ) || commits(commitment, gauge_vote, voting_epoch)),
{
    let after = commitments.push(commitment);
    if is_committed(commitments, gauge_vote, voting_epoch) {
        let at = commitment_index(commitments, gauge_vote, voting_epoch);
        assert(commits(after[at], gauge_vote, voting_epoch));
    }
    if commits(commitment, gauge_vote, voting_epoch) {
        assert(commits(after[commitments.len() as int], gauge_vote, voting_epoch));
    }
    if is_committed(after, gauge_vote, voting_epoch) {
        let at = commitment_index(after, gauge_vote, voting_epoch);
        if at < commitments.len() {
            assert(commits(commitments[at], gauge_vote, voting_epoch));
        }
    }
}

/// A commitment less leaves a vote committed for an epoch if it was and the
/// commitment is of another vote or epoch.
pub proof fn lemma_committed_after_remove(
    ledger: LedgerView,
    at: int,
    gauge_vote: Pubkey,
    voting_epoch: u32,
)
    requires
        ledger.keys_distinct(),
        ledger.addresses_derived(),
        0 <= at < ledger.commitments.len(),
    ensures
        is_committed(ledger.commitments.remove(at), gauge_vote, voting_epoch) == (is_committed(
            ledger.commitments,
            gauge_vote,
            voting_epoch,
        ) && !commits(ledger.commitments[at], gauge_vote, voting_epoch)),
{
    let before = ledger.commitments;
    let after = before.remove(at);
    if is_committed(after, gauge_vote, voting_epoch) {
        let found = commitment_index(after, gauge_vote, voting_epoch);
        let origin = if found < at {
            found
        } else {
            found + 1
        };
        assert(after[found] == before[origin]);
        assert(commits(before[origin], gauge_vote, voting_epoch));
        lemma_commitment_at(ledger, origin);
        if commits(before[at], gauge_vote, voting_epoch) {
            lemma_commitment_at(ledger, at);
        }
    }
    if is_committed(before, gauge_vote, voting_epoch) && !commits(
        before[at],
        gauge_vote,
        voting_epoch,
    ) {
        let origin = commitment_index(before, gauge_vote, voting_epoch);
        let found = if origin < at {
            origin
        } else {
            origin - 1
        };
        assert(after[found] == before[origin]);
        assert(commits(after[found], gauge_vote, voting_epoch));
    }
}

/// Where every commitment of a voter for an epoch holds at most the share
/// of its vote, and the votes of the commitments are votes of the voter,
/// each counted once, the commitments hold at most the power in all.
pub proof fn lemma_shares_add_up(
    ledger: LedgerView,
    gauge_voter: Pubkey,
    voting_epoch: u32,
    voting_power: int,
    total: int,
)
    requires
        0 <= voting_power,
        0 < total,
        total == total_weight(ledger.gauge_votes, gauge_voter),
        committed_weight(ledger.commitments, ledger.gauge_votes, gauge_voter, voting_epoch)
            == weight_of_committed_votes(
            ledger.gauge_votes,
            ledger.commitments,
            gauge_voter,
            voting_epoch,
        ),
        forall|k: int|
            0 <= k < ledger.commitments.len() && (#[trigger] ledger.commitments[k]).gauge_voter
                == gauge_voter && ledger.commitments[k].voting_epoch == voting_epoch
                ==> ledger.commitments[k].vote.allocated_power * total <= voting_power * weight_of(
                ledger.gauge_votes,
                ledger.commitments[k].gauge_vote,
            ),
    ensures
        committed_by_voter(ledger.commitments, gauge_voter, voting_epoch) <= voting_power,
{
    let power = power_of_voter(gauge_voter, voting_epoch);
    let weight = weight_of_commitment(ledger.gauge_votes, gauge_voter, voting_epoch);
    assert forall|k: int| 0 <= k < ledger.commitments.len() implies total * power(
        #[trigger] ledger.commitments[k],
    ) <= voting_power * weight(ledger.commitments[k]) by {
        let commitment = ledger.commitments[k];
        if commitment.gauge_voter == gauge_voter && commitment.voting_epoch == voting_epoch {
            assert(total * commitment.vote.allocated_power == commitment.vote.allocated_power
                * total) by (nonlinear_arith);
        } else {
            assert(total * 0 == 0 && voting_power * 0 == 0) by (nonlinear_arith);
        }
    }
    lemma_sum_scaled_le(ledger.commitments, power, weight, total, voting_power);
    let committed = weight_if_committed(ledger.commitments, gauge_voter, voting_epoch);
    let all = weight_for(gauge_voter);
    assert forall|i: int| 0 <= i < ledger.gauge_votes.len() implies committed(
        #[trigger] ledger.gauge_votes[i],
    ) <= all(ledger.gauge_votes[i]) by {}
    lemma_sum_le(ledger.gauge_votes, committed, all);
    let allocated = sum(ledger.commitments, power);
    let held = sum(ledger.commitments, weight);
    assert(allocated <= voting_power) by (nonlinear_arith)
        requires
            total * allocated <= voting_power * held,
            held <= total,
            0 < total,
            0 <= voting_power,
    ;
}

/// A new vote without weight keeps the allocated power within bounds.
pub proof fn lemma_new_vote_bounds_power(ledger: LedgerView, vote: Account<GaugeVote>)
    requires
        ledger.wf(),
        !has_key(ledger.gauge_votes, vote.key),
        vote.data.weight == 0,
    ensures
        (LedgerView { gauge_votes: ledger.gauge_votes.push(vote), ..ledger }).power_bounded(),
{
    let after = LedgerView { gauge_votes: ledger.gauge_votes.push(vote), ..ledger };
    lemma_push_account(ledger.gauge_votes, vote);
    assert forall|k: int| 0 <= k < ledger.commitments.len() implies weight_of(
        after.gauge_votes,
        (#[trigger] ledger.commitments[k]).gauge_vote,
    ) == weight_of(ledger.gauge_votes, ledger.commitments[k].gauge_vote) by {
        assert(get(ledger.gauge_votes, ledger.commitments[k].gauge_vote) is Some);
    }
    assert(after.shares_bounded());
    assert(after.committed_weights_agree()) by {
        assert forall|i: int| 0 <= i < after.epoch_gauge_voters.len() implies committed_weight(
            after.commitments,
            after.gauge_votes,
            (#[trigger] after.epoch_gauge_voters[i]).data.gauge_voter,
            after.epoch_gauge_voters[i].data.voting_epoch,
        ) == weight_of_committed_votes(
            after.gauge_votes,
            after.commitments,
            after.epoch_gauge_voters[i].data.gauge_voter,
            after.epoch_gauge_voters[i].data.voting_epoch,
        ) by {
            let snapshot = ledger.epoch_gauge_voters[i].data;
            lemma_sum_same_terms(
                ledger.commitments,
                weight_of_commitment(
                    ledger.gauge_votes,
                    snapshot.gauge_voter,
                    snapshot.voting_epoch,
                ),
                weight_of_commitment(after.gauge_votes, snapshot.gauge_voter, snapshot.voting_epoch),
            );
            lemma_sum_push(
                ledger.gauge_votes,
                vote,
                weight_if_committed(ledger.commitments, snapshot.gauge_voter, snapshot.voting_epoch),
            );
        }
    }
}

/// A change of a vote's weight that raises the voter's sequence number, or
/// no change at all, keeps the allocated power within bounds.
pub proof fn lemma_set_vote_bounds_power(
    ledger: LedgerView,
    voter: Account<GaugeVoter>,
    vote: Account<GaugeVote>,
)
    requires
        ledger.wf(),
        get(ledger.gauge_voters, voter.key) matches Some(before) && (voter == before
            || voter.data.weight_change_seqno > before.data.weight_change_seqno),
        get(ledger.gauge_votes, vote.key) matches Some(before) && {
            &&& vote.data.gauge_voter == before.data.gauge_voter
            &&& vote.data.gauge_voter == voter.key
            &&& get(ledger.gauge_voters, voter.key) == Some(voter) ==> vote == before
        },
    ensures
        (LedgerView {
            gauge_voters: put(ledger.gauge_voters, voter),
            gauge_votes: put(ledger.gauge_votes, vote),
            ..ledger
        }).power_bounded(),
{
    let after = LedgerView {
        gauge_voters: put(ledger.gauge_voters, voter),
        gauge_votes: put(ledger.gauge_votes, vote),
        ..ledger
    };
    let vote_at = index_of(ledger.gauge_votes, vote.key);
    let old_vote = ledger.gauge_votes[vote_at];
    lemma_put_account(ledger.gauge_voters, voter);
    lemma_put_account(ledger.gauge_votes, vote);
    lemma_get_found(ledger.gauge_voters, voter.key);
    lemma_get_found(ledger.gauge_votes, vote.key);
    if get(ledger.gauge_voters, voter.key) == Some(voter) {
        assert(after.gauge_voters =~= ledger.gauge_voters);
        assert(after.gauge_votes =~= ledger.gauge_votes);
    } else {
        assert(after.shares_bounded()) by {
            assert forall|i: int, k: int|
                0 <= i < after.epoch_gauge_voters.len() && 0 <= k
                    < after.commitments.len() implies {
                let snapshot = (#[trigger] after.epoch_gauge_voters[i]).data;
                let commitment = #[trigger] after.commitments[k];
                let held = get(after.gauge_voters, snapshot.gauge_voter);
                held is Some && snapshot.weight_change_seqno
                    == held.unwrap().data.weight_change_seqno && commitment.gauge_voter
                    == snapshot.gauge_voter && commitment.voting_epoch == snapshot.voting_epoch
                    ==> after.within_share(snapshot, held.unwrap().data, commitment)
            } by {
                let snapshot = ledger.epoch_gauge_voters[i].data;
                let commitment = ledger.commitments[k];
                if snapshot.gauge_voter != voter.key && commitment.gauge_voter
                    == snapshot.gauge_voter {
                    assert(get(ledger.gauge_votes, commitment.gauge_vote) is Some);
                    assert(commitment.gauge_vote != vote.key);
                }
            }
        }
        assert(after.committed_weights_agree()) by {
            assert forall|i: int| 0 <= i < after.epoch_gauge_voters.len() implies committed_weight(
                after.commitments,
                after.gauge_votes,
                (#[trigger] after.epoch_gauge_voters[i]).data.gauge_voter,
                after.epoch_gauge_voters[i].data.voting_epoch,
            ) == weight_of_committed_votes(
                after.gauge_votes,
                after.commitments,
                after.epoch_gauge_voters[i].data.gauge_voter,
                after.epoch_gauge_voters[i].data.voting_epoch,
            ) by {
                let snapshot = ledger.epoch_gauge_voters[i].data;
                let gauge_voter = snapshot.gauge_voter;
                let voting_epoch = snapshot.voting_epoch;
                let before_term = weight_of_commitment(
                    ledger.gauge_votes,
                    gauge_voter,
                    voting_epoch,
                );
                let after_term = weight_of_commitment(after.gauge_votes, gauge_voter, voting_epoch);
                lemma_sum_update(
                    ledger.gauge_votes,
                    vote_at,
                    vote,
                    weight_if_committed(ledger.commitments, gauge_voter, voting_epoch),
                );
                if is_committed(ledger.commitments, vote.key, voting_epoch) {
                    let at = commitment_index(ledger.commitments, vote.key, voting_epoch);
                    assert(get(ledger.gauge_votes, ledger.commitments[at].gauge_vote) is Some);
                    assert forall|k: int|
                        0 <= k < ledger.commitments.len() && k != at implies before_term(
                        #[trigger] ledger.commitments[k],
                    ) == after_term(ledger.commitments[k]) by {
                        let other = ledger.commitments[k];
                        if other.gauge_vote == vote.key && other.voting_epoch == voting_epoch {
                            lemma_commitment_at(ledger, k);
                        }
                    }
                    lemma_sum_change_at(ledger.commitments, at, before_term, after_term);
                } else {
                    assert forall|k: int| 0 <= k < ledger.commitments.len() implies before_term(
                        #[trigger] ledger.commitments[k],
                    ) == after_term(ledger.commitments[k]) by {
                        let other = ledger.commitments[k];
                        if other.gauge_vote == vote.key && other.voting_epoch == voting_epoch {
                            assert(commits(ledger.commitments[k], vote.key, voting_epoch));
                        }
                    }
                    lemma_sum_same_terms(ledger.commitments, before_term, after_term);
                }
            }
        }
    }
}

/// A vote of a voter that is committed for an epoch has a commitment of
/// that voter for that epoch.
pub proof fn lemma_committed_vote_has_commitment(
    ledger: LedgerView,
    vote_at: int,
    voting_epoch: u32,
)
    requires
        ledger.keys_distinct(),
        ledger.commitments_have_votes(),
        0 <= vote_at < ledger.gauge_votes.len(),
        is_committed(ledger.commitments, ledger.gauge_votes[vote_at].key, voting_epoch),
    ensures
        ({
            let at = commitment_index(
                ledger.commitments,
                ledger.gauge_votes[vote_at].key,
                voting_epoch,
            );
            &&& 0 <= at < ledger.commitments.len()
            &&& ledger.commitments[at].gauge_vote == ledger.gauge_votes[vote_at].key
            &&& ledger.commitments[at].voting_epoch == voting_epoch
            &&& ledger.commitments[at].gauge_voter == ledger.gauge_votes[vote_at].data.gauge_voter
        }),
{
    let at = commitment_index(ledger.commitments, ledger.gauge_votes[vote_at].key, voting_epoch);
    assert(commits(ledger.commitments[at], ledger.gauge_votes[vote_at].key, voting_epoch));
    lemma_get_at(ledger.gauge_votes, vote_at);
    assert(get(ledger.gauge_votes, ledger.commitments[at].gauge_vote) is Some);
}

/// A new snapshot with nothing allocated, at its derived address, keeps
/// the allocated power within bounds.
pub proof fn lemma_new_snapshot_bounds_power(ledger: LedgerView, snapshot: Account<EpochGaugeVoter>)
    requires
        ledger.wf(),
        !has_key(ledger.epoch_gauge_voters, snapshot.key),
        address_of(
            EpochGaugeVoter::spec_find_program_address(
                snapshot.data.gauge_voter,
                snapshot.data.voting_epoch,
            ),
        ) == Some(snapshot.key),
        snapshot.data.allocated_power == 0,
    ensures
        (LedgerView {
            epoch_gauge_voters: ledger.epoch_gauge_voters.push(snapshot),
            ..ledger
        }).power_bounded(),
{
    let after = LedgerView { epoch_gauge_voters: ledger.epoch_gauge_voters.push(snapshot), ..ledger };
    let gauge_voter = snapshot.data.gauge_voter;
    let voting_epoch = snapshot.data.voting_epoch;
    assert forall|k: int| 0 <= k < ledger.commitments.len() implies !((
    #[trigger] ledger.commitments[k]).gauge_voter == gauge_voter
        && ledger.commitments[k].voting_epoch == voting_epoch) by {
        let commitment = ledger.commitments[k];
        if commitment.gauge_voter == gauge_voter && commitment.voting_epoch == voting_epoch {
            assert(has_key(ledger.epoch_gauge_voters, snapshot.key));
        }
    }
    assert(after.allocations_bounded()) by {
        assert forall|i: int| 0 <= i < after.epoch_gauge_voters.len() implies (
        #[trigger] after.epoch_gauge_voters[i]).data.allocated_power
            <= after.epoch_gauge_voters[i].data.voting_power by {
            if i < ledger.epoch_gauge_voters.len() {
                assert(after.epoch_gauge_voters[i] == ledger.epoch_gauge_voters[i]);
            }
        }
    }
    assert(after.shares_bounded()) by {
        assert forall|i: int, k: int|
            0 <= i < after.epoch_gauge_voters.len() && 0 <= k < after.commitments.len() implies {
            let held = (#[trigger] after.epoch_gauge_voters[i]).data;
            let commitment = #[trigger] after.commitments[k];
            let voter = get(after.gauge_voters, held.gauge_voter);
            voter is Some && held.weight_change_seqno == voter.unwrap().data.weight_change_seqno
                && commitment.gauge_voter == held.gauge_voter && commitment.voting_epoch
                == held.voting_epoch ==> after.within_share(held, voter.unwrap().data, commitment)
        } by {
            if i < ledger.epoch_gauge_voters.len() {
                assert(after.epoch_gauge_voters[i] == ledger.epoch_gauge_voters[i]);
            }
        }
    }
    assert(after.committed_weights_agree()) by {
        assert forall|i: int| 0 <= i < after.epoch_gauge_voters.len() implies committed_weight(
            after.commitments,
            after.gauge_votes,
            (#[trigger] after.epoch_gauge_voters[i]).data.gauge_voter,
            after.epoch_gauge_voters[i].data.voting_epoch,
        ) == weight_of_committed_votes(
            after.gauge_votes,
            after.commitments,
            after.epoch_gauge_voters[i].data.gauge_voter,
            after.epoch_gauge_voters[i].data.voting_epoch,
        ) by {
            if i < ledger.epoch_gauge_voters.len() {
                assert(after.epoch_gauge_voters[i] == ledger.epoch_gauge_voters[i]);
            } else {
                let by_commitment = weight_of_commitment(
                    ledger.gauge_votes,
                    gauge_voter,
                    voting_epoch,
                );
                assert forall|k: int| 0 <= k < ledger.commitments.len() implies by_commitment(
                    #[trigger] ledger.commitments[k],
                ) == 0 by {}
                lemma_sum_zero(ledger.commitments, by_commitment);
                let by_vote = weight_if_committed(ledger.commitments, gauge_voter, voting_epoch);
                assert forall|j: int| 0 <= j < ledger.gauge_votes.len() implies by_vote(
                    #[trigger] ledger.gauge_votes[j],
                ) == 0 by {
                    let vote = ledger.gauge_votes[j];
                    if vote.data.gauge_voter == gauge_voter && is_committed(
                        ledger.commitments,
                        vote.key,
                        voting_epoch,
                    ) {
                        lemma_committed_vote_has_commitment(ledger, j, voting_epoch);
                    }
                }
                lemma_sum_zero(ledger.gauge_votes, by_vote);
            }
        }
    }
}

/// A snapshot taken anew while nothing of it is allocated keeps the
/// allocated power within bounds.
pub proof fn lemma_reset_snapshot_bounds_power(
    ledger: LedgerView,
    snapshot: Account<EpochGaugeVoter>,
)
    requires
        ledger.wf(),
        get(ledger.epoch_gauge_voters, snapshot.key) matches Some(before) && {
            &&& snapshot.data.gauge_voter == before.data.gauge_voter
            &&& snapshot.data.voting_epoch == before.data.voting_epoch
            &&& before.data.allocated_power == 0
            &&& snapshot.data.allocated_power == 0
        },
    ensures
        (LedgerView {
            epoch_gauge_voters: put(ledger.epoch_gauge_voters, snapshot),
            ..ledger
        }).power_bounded(),
{
    let after = LedgerView { epoch_gauge_voters: put(ledger.epoch_gauge_voters, snapshot), ..ledger };
    let snapshot_at = index_of(ledger.epoch_gauge_voters, snapshot.key);
    lemma_put_account(ledger.epoch_gauge_voters, snapshot);
    lemma_get_found(ledger.epoch_gauge_voters, snapshot.key);
    let gauge_voter = snapshot.data.gauge_voter;
    let voting_epoch = snapshot.data.voting_epoch;
    let power = power_of_voter(gauge_voter, voting_epoch);
    assert(sum(ledger.commitments, power) == 0) by {
        assert(ledger.epoch_gauge_voters[snapshot_at].data.allocated_power == committed_by_voter(
            ledger.commitments,
            gauge_voter,
            voting_epoch,
        ));
    }
    assert forall|k: int| 0 <= k < ledger.commitments.len() implies power(
        #[trigger] ledger.commitments[k],
    ) >= 0 by {}
    assert(after.allocations_bounded()) by {
        assert forall|i: int| 0 <= i < after.epoch_gauge_voters.len() implies (
        #[trigger] after.epoch_gauge_voters[i]).data.allocated_power
            <= after.epoch_gauge_voters[i].data.voting_power by {
            assert(ledger.epoch_gauge_voters[i].data.allocated_power
                <= ledger.epoch_gauge_voters[i].data.voting_power);
        }
    }
    assert(after.shares_bounded()) by {
        assert forall|i: int, k: int|
            0 <= i < after.epoch_gauge_voters.len() && 0 <= k < after.commitments.len() implies {
            let held = (#[trigger] after.epoch_gauge_voters[i]).data;
            let commitment = #[trigger] after.commitments[k];
            let voter = get(after.gauge_voters, held.gauge_voter);
            voter is Some && held.weight_change_seqno == voter.unwrap().data.weight_change_seqno
                && commitment.gauge_voter == held.gauge_voter && commitment.voting_epoch
                == held.voting_epoch ==> after.within_share(held, voter.unwrap().data, commitment)
        } by {
            let held = after.epoch_gauge_voters[i].data;
            let commitment = ledger.commitments[k];
            let voter = get(after.gauge_voters, held.gauge_voter);
            if i == snapshot_at {
                if voter is Some && commitment.gauge_voter == gauge_voter
                    && commitment.voting_epoch == voting_epoch {
                    lemma_sum_holds_term(ledger.commitments, k, power);
                    assert(commitment.vote.allocated_power == 0);
                    let total = voter.unwrap().data.total_weight;
                    let weight = weight_of(ledger.gauge_votes, commitment.gauge_vote);
                    assert(commitment.vote.allocated_power * total <= held.voting_power * weight)
                        by (nonlinear_arith)
                        requires
                            commitment.vote.allocated_power == 0,
                            0 <= held.voting_power,
                            0 <= weight,
                    ;
                }
            } else {
                assert(after.epoch_gauge_voters[i] == ledger.epoch_gauge_voters[i]);
            }
        }
    }
    assert(after.committed_weights_agree()) by {
        assert forall|i: int| 0 <= i < after.epoch_gauge_voters.len() implies committed_weight(
            after.commitments,
            after.gauge_votes,
            (#[trigger] after.epoch_gauge_voters[i]).data.gauge_voter,
            after.epoch_gauge_voters[i].data.voting_epoch,
        ) == weight_of_committed_votes(
            after.gauge_votes,
            after.commitments,
            after.epoch_gauge_voters[i].data.gauge_voter,
            after.epoch_gauge_voters[i].data.voting_epoch,
        ) by {
            assert(after.epoch_gauge_voters[i].data.gauge_voter
                == ledger.epoch_gauge_voters[i].data.gauge_voter);
        }
    }
}

/// A new commitment against a snapshot that carries the sequence number
/// of its voter, which holds at most the share of its vote, keeps the
/// allocated power within bounds.
pub proof fn lemma_commit_bounds_power(
    ledger: LedgerView,
    epoch_gauge: Account<EpochGauge>,
    snapshot: Account<EpochGaugeVoter>,
    commitment: Commitment,
)
    requires
        ledger.wf(),
        !has_commitment_at(ledger.commitments, commitment.key),
        address_of(
            EpochGaugeVote::spec_find_program_address(
                commitment.gauge_vote,
                commitment.voting_epoch,
            ),
        ) == Some(commitment.key),
        get(ledger.gauge_votes, commitment.gauge_vote) matches Some(vote) && vote.data.gauge_voter
            == commitment.gauge_voter,
        get(ledger.epoch_gauge_voters, snapshot.key) matches Some(before) && {
            &&& before.data.gauge_voter == commitment.gauge_voter
            &&& before.data.voting_epoch == commitment.voting_epoch
            &&& snapshot.data == (EpochGaugeVoter {
                allocated_power: snapshot.data.allocated_power,
                ..before.data
            })
            &&& snapshot.data.allocated_power == before.data.allocated_power
                + commitment.vote.allocated_power
        },
        get(ledger.gauge_voters, commitment.gauge_voter) matches Some(voter) && {
            &&& get(ledger.epoch_gauge_voters, snapshot.key).unwrap().data.weight_change_seqno
                == voter.data.weight_change_seqno
            &&& 0 < voter.data.total_weight
            &&& commitment.vote.allocated_power * voter.data.total_weight
                <= snapshot.data.voting_power * weight_of(
                ledger.gauge_votes,
                commitment.gauge_vote,
            )
        },
    ensures
        (LedgerView {
            epoch_gauges: put(ledger.epoch_gauges, epoch_gauge),
            epoch_gauge_voters: put(ledger.epoch_gauge_voters, snapshot),
            commitments: ledger.commitments.push(commitment),
            ..ledger
        }).power_bounded(),
{
    let after = LedgerView {
        epoch_gauges: put(ledger.epoch_gauges, epoch_gauge),
        epoch_gauge_voters: put(ledger.epoch_gauge_voters, snapshot),
        commitments: ledger.commitments.push(commitment),
        ..ledger
    };
    let snapshot_at = index_of(ledger.epoch_gauge_voters, snapshot.key);
    let vote_at = index_of(ledger.gauge_votes, commitment.gauge_vote);
    let voter_at = index_of(ledger.gauge_voters, commitment.gauge_voter);
    let voter = ledger.gauge_voters[voter_at];
    let gauge_voter = commitment.gauge_voter;
    let voting_epoch = commitment.voting_epoch;
    lemma_put_account(ledger.epoch_gauge_voters, snapshot);
    lemma_get_found(ledger.epoch_gauge_voters, snapshot.key);
    lemma_get_found(ledger.gauge_votes, commitment.gauge_vote);
    lemma_get_found(ledger.gauge_voters, commitment.gauge_voter);
    assert(!is_committed(ledger.commitments, commitment.gauge_vote, voting_epoch)) by {
        if is_committed(ledger.commitments, commitment.gauge_vote, voting_epoch) {
            let at = commitment_index(ledger.commitments, commitment.gauge_vote, voting_epoch);
            assert(ledger.commitments[at].key == commitment.key);
        }
    }
    assert forall|k: int| 0 <= k < after.commitments.len() implies #[trigger] after.commitments[k]
        == (if k < ledger.commitments.len() {
        ledger.commitments[k]
    } else {
        commitment
    }) by {}
    assert(after.shares_bounded()) by {
        assert forall|i: int, k: int|
            0 <= i < after.epoch_gauge_voters.len() && 0 <= k < after.commitments.len() implies {
            let held = (#[trigger] after.epoch_gauge_voters[i]).data;
            let other = #[trigger] after.commitments[k];
            let of = get(after.gauge_voters, held.gauge_voter);
            of is Some && held.weight_change_seqno == of.unwrap().data.weight_change_seqno
                && other.gauge_voter == held.gauge_voter && other.voting_epoch == held.voting_epoch
                ==> after.within_share(held, of.unwrap().data, other)
        } by {
            let before = ledger.epoch_gauge_voters[i].data;
            if i != snapshot_at {
                lemma_get_at(ledger.epoch_gauge_voters, i);
                lemma_get_at(ledger.epoch_gauge_voters, snapshot_at);
                assert(after.epoch_gauge_voters[i] == ledger.epoch_gauge_voters[i]);
            }
            if k < ledger.commitments.len() {
                assert(after.commitments[k] == ledger.commitments[k]);
            }
        }
    }
    assert(after.committed_weights_agree()) by {
        assert forall|i: int| 0 <= i < after.epoch_gauge_voters.len() implies committed_weight(
            after.commitments,
            after.gauge_votes,
            (#[trigger] after.epoch_gauge_voters[i]).data.gauge_voter,
            after.epoch_gauge_voters[i].data.voting_epoch,
        ) == weight_of_committed_votes(
            after.gauge_votes,
            after.commitments,
            after.epoch_gauge_voters[i].data.gauge_voter,
            after.epoch_gauge_voters[i].data.voting_epoch,
        ) by {
            let held = ledger.epoch_gauge_voters[i].data;
            assert(after.epoch_gauge_voters[i].data.gauge_voter == held.gauge_voter);
            assert(after.epoch_gauge_voters[i].data.voting_epoch == held.voting_epoch);
            let before_term = weight_if_committed(
                ledger.commitments,
                held.gauge_voter,
                held.voting_epoch,
            );
            let after_term = weight_if_committed(
                after.commitments,
                held.gauge_voter,
                held.voting_epoch,
            );
            lemma_sum_push(
                ledger.commitments,
                commitment,
                weight_of_commitment(ledger.gauge_votes, held.gauge_voter, held.voting_epoch),
            );
            assert forall|j: int|
                0 <= j < ledger.gauge_votes.len() && j != vote_at implies before_term(
                #[trigger] ledger.gauge_votes[j],
            ) == after_term(ledger.gauge_votes[j]) by {
                lemma_committed_after_push(
                    ledger.commitments,
                    commitment,
                    ledger.gauge_votes[j].key,
                    held.voting_epoch,
                );
                lemma_get_at(ledger.gauge_votes, j);
                lemma_get_at(ledger.gauge_votes, vote_at);
            }
            lemma_committed_after_push(
                ledger.commitments,
                commitment,
                commitment.gauge_vote,
                held.voting_epoch,
            );
            lemma_sum_change_at(ledger.gauge_votes, vote_at, before_term, after_term);
            if i != snapshot_at {
                lemma_get_at(ledger.epoch_gauge_voters, i);
                lemma_get_at(ledger.epoch_gauge_voters, snapshot_at);
            }
        }
    }
    assert(after.allocations_bounded()) by {
        assert forall|i: int| 0 <= i < after.epoch_gauge_voters.len() implies (
        #[trigger] after.epoch_gauge_voters[i]).data.allocated_power
            <= after.epoch_gauge_voters[i].data.voting_power by {
            if i == snapshot_at {
                lemma_sum_push(
                    ledger.commitments,
                    commitment,
                    power_of_voter(gauge_voter, voting_epoch),
                );
                assert(ledger.epoch_gauge_voters[i].data.allocated_power == committed_by_voter(
                    ledger.commitments,
                    gauge_voter,
                    voting_epoch,
                ));
                assert(voter.data.total_weight == total_weight(ledger.gauge_votes, voter.key));
                assert forall|k: int|
                    0 <= k < after.commitments.len()
                        && (#[trigger] after.commitments[k]).gauge_voter
                        == gauge_voter && after.commitments[k].voting_epoch
                        == voting_epoch implies after.commitments[k].vote.allocated_power
                    * voter.data.total_weight <= snapshot.data.voting_power * weight_of(
                    after.gauge_votes,
                    after.commitments[k].gauge_vote,
                ) by {
                    assert(after.within_share(
                        after.epoch_gauge_voters[snapshot_at].data,
                        voter.data,
                        after.commitments[k],
                    ));
                }
                lemma_shares_add_up(
                    after,
                    gauge_voter,
                    voting_epoch,
                    snapshot.data.voting_power as int,
                    voter.data.total_weight as int,
                );
            } else {
                assert(ledger.epoch_gauge_voters[i].data.allocated_power
                    <= ledger.epoch_gauge_voters[i].data.voting_power);
                assert(after.epoch_gauge_voters[i] == ledger.epoch_gauge_voters[i]);
            }
        }
    }
}

/// Taking a commitment out of the ledger, and its power out of the
/// snapshot of its voter and epoch, keeps the allocated power within
/// bounds.
pub proof fn lemma_revert_bounds_power(
    ledger: LedgerView,
    epoch_gauge: Account<EpochGauge>,
    snapshot: Account<EpochGaugeVoter>,
    at: int,
)
    requires
        ledger.wf(),
        0 <= at < ledger.commitments.len(),
        get(ledger.epoch_gauge_voters, snapshot.key) matches Some(before) && {
            &&& before.data.gauge_voter == ledger.commitments[at].gauge_voter
            &&& before.data.voting_epoch == ledger.commitments[at].voting_epoch
            &&& snapshot.data == (EpochGaugeVoter {
                allocated_power: snapshot.data.allocated_power,
                ..before.data
            })
            &&& snapshot.data.allocated_power == before.data.allocated_power
                - ledger.commitments[at].vote.allocated_power
        },
    ensures
        (LedgerView {
            epoch_gauges: put(ledger.epoch_gauges, epoch_gauge),
            epoch_gauge_voters: put(ledger.epoch_gauge_voters, snapshot),
            commitments: ledger.commitments.remove(at),
            ..ledger
        }).power_bounded(),
{
    let after = LedgerView {
        epoch_gauges: put(ledger.epoch_gauges, epoch_gauge),
        epoch_gauge_voters: put(ledger.epoch_gauge_voters, snapshot),
        commitments: ledger.commitments.remove(at),
        ..ledger
    };
    let commitment = ledger.commitments[at];
    let snapshot_at = index_of(ledger.epoch_gauge_voters, snapshot.key);
    lemma_put_account(ledger.epoch_gauge_voters, snapshot);
    lemma_get_found(ledger.epoch_gauge_voters, snapshot.key);
    assert(get(ledger.gauge_votes, commitment.gauge_vote) is Some);
    lemma_get_found(ledger.gauge_votes, commitment.gauge_vote);
    let vote_at = index_of(ledger.gauge_votes, commitment.gauge_vote);
    assert forall|k: int| 0 <= k < after.commitments.len() implies #[trigger] after.commitments[k]
        == ledger.commitments[if k < at {
        k
    } else {
        k + 1
    }] by {}
    assert(after.allocations_bounded()) by {
        assert forall|i: int| 0 <= i < after.epoch_gauge_voters.len() implies (
        #[trigger] after.epoch_gauge_voters[i]).data.allocated_power
            <= after.epoch_gauge_voters[i].data.voting_power by {
            assert(ledger.epoch_gauge_voters[i].data.allocated_power
                <= ledger.epoch_gauge_voters[i].data.voting_power);
        }
    }
    assert(after.shares_bounded()) by {
        assert forall|i: int, k: int|
            0 <= i < after.epoch_gauge_voters.len() && 0 <= k < after.commitments.len() implies {
            let held = (#[trigger] after.epoch_gauge_voters[i]).data;
            let other = #[trigger] after.commitments[k];
            let of = get(after.gauge_voters, held.gauge_voter);
            of is Some && held.weight_change_seqno == of.unwrap().data.weight_change_seqno
                && other.gauge_voter == held.gauge_voter && other.voting_epoch == held.voting_epoch
                ==> after.within_share(held, of.unwrap().data, other)
        } by {
            let origin = if k < at {
                k
            } else {
                k + 1
            };
            assert(after.commitments[k] == ledger.commitments[origin]);
            let before = ledger.epoch_gauge_voters[i].data;
            let other = ledger.commitments[origin];
            let of = get(ledger.gauge_voters, before.gauge_voter);
            assert(of is Some && before.weight_change_seqno
                == of.unwrap().data.weight_change_seqno && other.gauge_voter == before.gauge_voter
                && other.voting_epoch == before.voting_epoch ==> ledger.within_share(
                before,
                of.unwrap().data,
                other,
            ));
        }
    }
    assert(after.committed_weights_agree()) by {
        assert forall|i: int| 0 <= i < after.epoch_gauge_voters.len() implies committed_weight(
            after.commitments,
            after.gauge_votes,
            (#[trigger] after.epoch_gauge_voters[i]).data.gauge_voter,
            after.epoch_gauge_voters[i].data.voting_epoch,
        ) == weight_of_committed_votes(
            after.gauge_votes,
            after.commitments,
            after.epoch_gauge_voters[i].data.gauge_voter,
            after.epoch_gauge_voters[i].data.voting_epoch,
        ) by {
            let held = ledger.epoch_gauge_voters[i].data;
            assert(after.epoch_gauge_voters[i].data.gauge_voter == held.gauge_voter);
            assert(after.epoch_gauge_voters[i].data.voting_epoch == held.voting_epoch);
            let before_term = weight_if_committed(
                ledger.commitments,
                held.gauge_voter,
                held.voting_epoch,
            );
            let after_term = weight_if_committed(
                after.commitments,
                held.gauge_voter,
                held.voting_epoch,
            );
            lemma_sum_remove(
                ledger.commitments,
                at,
                weight_of_commitment(ledger.gauge_votes, held.gauge_voter, held.voting_epoch),
            );
            assert forall|j: int|
                0 <= j < ledger.gauge_votes.len() && j != vote_at implies before_term(
                #[trigger] ledger.gauge_votes[j],
            ) == after_term(ledger.gauge_votes[j]) by {
                lemma_committed_after_remove(
                    ledger,
                    at,
                    ledger.gauge_votes[j].key,
                    held.voting_epoch,
                );
                lemma_get_at(ledger.gauge_votes, j);
                lemma_get_at(ledger.gauge_votes, vote_at);
            }
            lemma_committed_after_remove(ledger, at, commitment.gauge_vote, held.voting_epoch);
            lemma_commitment_at(ledger, at);
            lemma_sum_change_at(ledger.gauge_votes, vote_at, before_term, after_term);
            if i != snapshot_at {
                lemma_get_at(ledger.epoch_gauge_voters, i);
                lemma_get_at(ledger.epoch_gauge_voters, snapshot_at);
            }
        }
    }
}

} // verus!
