//! Snapshots of voting power and committed votes in the ledger.

use vstd::prelude::*;
use crate::account::Account;
use crate::address::address_of;
use crate::gauge;
use crate::instructions::create_epoch_gauge::CreateEpochGauge;
use crate::instructions::gauge_commit_vote::{CommitGaugeVoteEvent, GaugeCommitVote};
use crate::instructions::gauge_revert_vote::{GaugeRevertVote, RevertGaugeVoteEvent};
use crate::instructions::prepare_epoch_gauge_voter::{
    PrepareEpochGaugeVoter,
    PrepareEpochGaugeVoterEvent,
};
use crate::instructions::reset_epoch_gauge_voter::{
    ResetEpochGaugeVoter,
    ResetEpochGaugeVoterEvent,
};
use crate::ledger::bounds::{
    lemma_commit_bounds_power,
    lemma_new_snapshot_bounds_power,
    lemma_reset_snapshot_bounds_power,
    lemma_revert_bounds_power,
    lemma_share_is_rounded_down,
};
use crate::ledger::view::{
    commitment_index,
    commits,
    committed_by_voter,
    committed_to_gauge,
    get,
    has_commitment_at,
    has_key,
    index_of,
    is_committed,
    lemma_get_at,
    lemma_get_found,
    lemma_push_account,
    lemma_put_account,
    power_for_gauge,
    power_of_voter,
    put,
    Commitment,
    LedgerView,
};
use crate::ledger::weights::{Asking, VoteKeys};
use crate::ledger::{find_account, Ledger, LedgerError};
use crate::locker::{Escrow, Locker};
use crate::pubkey::Pubkey;
use crate::state::{EpochGauge, EpochGaugeVote, EpochGaugeVoter};
use crate::sums::{lemma_sum_push, lemma_sum_remove, lemma_sum_zero};

verus! {

impl LedgerView {
    /// What creating the epoch gauge of the gauge at `gauge` for the epoch
    /// `voting_epoch` does: the ledger afterwards and the address of the
    /// epoch gauge, or the reason for refusing. It is refused where the
    /// ledger lacks the gauge, and where the epoch gauge has no address or
    /// exists already.
    pub open spec fn create_epoch_gauge(self, gauge: Pubkey, voting_epoch: u32) -> Result<
        (LedgerView, Pubkey),
        LedgerError,
    > {
        match get(self.gauges, gauge) {
            None => Err(LedgerError::AccountNotFound),
            Some(gauge) => match EpochGauge::spec_find_program_address(gauge.key, voting_epoch) {
                None => Err(LedgerError::NoAddress),
                Some((key, _)) => if has_key(self.epoch_gauges, key) {
                    Err(LedgerError::AccountAlreadyExists)
                } else {
                    let accounts = CreateEpochGauge {
                        gauge,
                        epoch_gauge: Account { key, data: arbitrary() },
                    };
                    Ok(
                        (
                            LedgerView {
                                epoch_gauges: self.epoch_gauges.push(
                                    Account { key, data: accounts.created(voting_epoch) },
                                ),
                                ..self
                            },
                            key,
                        ),
                    )
                },
            },
        }
    }

    /// What taking a snapshot of the power of the voter at `gauge_voter`
    /// does, for the epoch that is being voted on: the ledger afterwards,
    /// with the address of the snapshot and the record of it, or the reason
    /// for refusing. It is refused where the ledger lacks the gaugemeister
    /// or the voter, where there is no epoch to vote on, where the snapshot
    /// has no address or exists already, and where the gauge program refuses
    /// it.
    pub open spec fn prepare_epoch_gauge_voter(
        self,
        gaugemeister: Pubkey,
        gauge_voter: Pubkey,
        locker: Account<Locker>,
        escrow: Account<Escrow>,
    ) -> Result<(LedgerView, (Pubkey, PrepareEpochGaugeVoterEvent)), LedgerError> {
        match (get(self.gaugemeisters, gaugemeister), get(self.gauge_voters, gauge_voter)) {
            (Some(gaugemeister), Some(gauge_voter)) => match gaugemeister.data.spec_voting_epoch() {
                Err(code) => Err(LedgerError::Program(code)),
                Ok(voting_epoch) => match EpochGaugeVoter::spec_find_program_address(
                    gauge_voter.key,
                    voting_epoch,
                ) {
                    None => Err(LedgerError::NoAddress),
                    Some((key, _)) => if has_key(self.epoch_gauge_voters, key) {
                        Err(LedgerError::AccountAlreadyExists)
                    } else {
                        let accounts = PrepareEpochGaugeVoter {
                            gaugemeister,
                            locker,
                            escrow,
                            gauge_voter,
                            epoch_gauge_voter: Account { key, data: arbitrary() },
                        };
                        match accounts.spec_validate() {
                            Err(code) => Err(LedgerError::Program(code)),
                            Ok(()) => match accounts.spec_snapshot(accounts.spec_power()) {
                                Err(code) => Err(LedgerError::Program(code)),
                                Ok(snapshot) => Ok(
                                    (
                                        LedgerView {
                                            epoch_gauge_voters: self.epoch_gauge_voters.push(
                                                Account { key, data: snapshot },
                                            ),
                                            ..self
                                        },
                                        (key, accounts.snapshot_event(snapshot)),
                                    ),
                                ),
                            },
                        }
                    },
                },
            },
            _ => Err(LedgerError::AccountNotFound),
        }
    }

    /// What taking the snapshot at `epoch_gauge_voter` anew does: the
    /// ledger afterwards and the record of the reset, or the reason for
    /// refusing. It is refused where the ledger lacks one of the records,
    /// and where the gauge program refuses it.
    pub open spec fn reset_epoch_gauge_voter(
        self,
        gaugemeister: Pubkey,
        gauge_voter: Pubkey,
        epoch_gauge_voter: Pubkey,
        locker: Account<Locker>,
        escrow: Account<Escrow>,
    ) -> Result<(LedgerView, ResetEpochGaugeVoterEvent), LedgerError> {
        match (
            get(self.gaugemeisters, gaugemeister),
            get(self.gauge_voters, gauge_voter),
            get(self.epoch_gauge_voters, epoch_gauge_voter),
        ) {
            (Some(gaugemeister), Some(gauge_voter), Some(epoch_gauge_voter)) => {
                let accounts = ResetEpochGaugeVoter {
                    gaugemeister,
                    locker,
                    escrow,
                    gauge_voter,
                    epoch_gauge_voter,
                };
                match accounts.spec_validate() {
                    Err(code) => Err(LedgerError::Program(code)),
                    Ok(()) => match accounts.spec_reset(accounts.spec_power()) {
                        Err(code) => Err(LedgerError::Program(code)),
                        Ok(snapshot) => Ok(
                            (
                                LedgerView {
                                    epoch_gauge_voters: put(
                                        self.epoch_gauge_voters,
                                        Account { key: epoch_gauge_voter.key, data: snapshot },
                                    ),
                                    ..self
                                },
                                accounts.reset_event(snapshot),
                            ),
                        ),
                    },
                }
            },
            _ => Err(LedgerError::AccountNotFound),
        }
    }

    /// What committing the vote at `keys` does, to the epoch gauge at
    /// `epoch_gauge` and against the snapshot at `epoch_gauge_voter`: the
    /// ledger afterwards and the record of the commit, or the reason for
    /// refusing. It is refused where the ledger lacks one of the records,
    /// where the epoch gauge vote has no address or exists already, and
    /// where the gauge program refuses it. A vote without weight is not
    /// committed, and the ledger stays as it is.
    pub open spec fn gauge_commit_vote(
        self,
        keys: VoteKeys,
        epoch_gauge: Pubkey,
        epoch_gauge_voter: Pubkey,
    ) -> Result<(LedgerView, Option<CommitGaugeVoteEvent>), LedgerError> {
        match (
            get(self.gaugemeisters, keys.gaugemeister),
            get(self.gauges, keys.gauge),
            get(self.gauge_voters, keys.gauge_voter),
            get(self.gauge_votes, keys.gauge_vote),
            get(self.epoch_gauges, epoch_gauge),
            get(self.epoch_gauge_voters, epoch_gauge_voter),
        ) {
            (
                Some(gaugemeister),
                Some(gauge),
                Some(gauge_voter),
                Some(gauge_vote),
                Some(epoch_gauge),
                Some(epoch_gauge_voter),
            ) => match EpochGaugeVote::spec_find_program_address(
                gauge_vote.key,
                epoch_gauge_voter.data.voting_epoch,
            ) {
                None => Err(LedgerError::NoAddress),
                Some((key, _)) => if has_commitment_at(self.commitments, key) {
                    Err(LedgerError::AccountAlreadyExists)
                } else {
                    let accounts = GaugeCommitVote {
                        gaugemeister,
                        gauge,
                        gauge_voter,
                        gauge_vote,
                        epoch_gauge,
                        epoch_gauge_voter,
                        epoch_gauge_vote: Account { key, data: EpochGaugeVote { allocated_power: 0 } },
                    };
                    match accounts.spec_validate() {
                        Err(code) => Err(LedgerError::Program(code)),
                        Ok(()) => match accounts.spec_commit_vote() {
                            Err(code) => Err(LedgerError::Program(code)),
                            Ok((_, None)) => Ok((self, None)),
                            Ok((after, Some(event))) => Ok(
                                (
                                    LedgerView {
                                        epoch_gauges: put(self.epoch_gauges, after.epoch_gauge),
                                        epoch_gauge_voters: put(
                                            self.epoch_gauge_voters,
                                            after.epoch_gauge_voter,
                                        ),
                                        commitments: self.commitments.push(
                                            Commitment {
                                                key,
                                                gauge_vote: gauge_vote.key,
                                                gauge: gauge.key,
                                                gauge_voter: gauge_voter.key,
                                                voting_epoch: epoch_gauge_voter.data.voting_epoch,
                                                vote: after.epoch_gauge_vote.data,
                                            },
                                        ),
                                        ..self
                                    },
                                    Some(event),
                                ),
                            ),
                        },
                    }
                },
            },
            _ => Err(LedgerError::AccountNotFound),
        }
    }

    /// The accounts for reverting the vote at `keys` for the epoch that is
    /// being voted on, with the place of the commitment, where the ledger
    /// holds them all; or the reason for refusing. It is refused where the
    /// ledger lacks one of the records, where there is no epoch to vote on,
    /// and where the vote is not committed for that epoch.
    pub open spec fn revert_accounts(
        self,
        keys: VoteKeys,
        epoch_gauge: Pubkey,
        epoch_gauge_voter: Pubkey,
        asking: Asking,
    ) -> Result<(GaugeRevertVote, int), LedgerError> {
        match (
            get(self.gaugemeisters, keys.gaugemeister),
            get(self.gauges, keys.gauge),
            get(self.gauge_voters, keys.gauge_voter),
            get(self.gauge_votes, keys.gauge_vote),
            get(self.epoch_gauges, epoch_gauge),
            get(self.epoch_gauge_voters, epoch_gauge_voter),
        ) {
            (
                Some(gaugemeister),
                Some(gauge),
                Some(gauge_voter),
                Some(gauge_vote),
                Some(epoch_gauge),
                Some(epoch_gauge_voter),
            ) => match gaugemeister.data.spec_voting_epoch() {
                Err(code) => Err(LedgerError::Program(code)),
                Ok(voting_epoch) => if !is_committed(
                    self.commitments,
                    gauge_vote.key,
                    voting_epoch,
                ) {
                    Err(LedgerError::AccountNotFound)
                } else {
                    let at = commitment_index(self.commitments, gauge_vote.key, voting_epoch);
                    Ok(
                        (
                            GaugeRevertVote {
                                gaugemeister,
                                gauge,
                                gauge_voter,
                                gauge_vote,
                                epoch_gauge,
                                epoch_gauge_voter,
                                escrow: asking.escrow,
                                vote_delegate: asking.vote_delegate,
                                epoch_gauge_vote: Account {
                                    key: self.commitments[at].key,
                                    data: self.commitments[at].vote,
                                },
                            },
                            at,
                        ),
                    )
                },
            },
            _ => Err(LedgerError::AccountNotFound),
        }
    }

    /// What reverting the vote of `accounts` does to the ledger, once it is
    /// found in order, where its commitment stands at `at`: the ledger
    /// afterwards, without the commitment, and the record of the revert, or
    /// the reason for refusing.
    pub open spec fn with_revert(self, accounts: GaugeRevertVote, at: int) -> Result<
        (LedgerView, RevertGaugeVoteEvent),
        LedgerError,
    > {
        match accounts.spec_revert_vote() {
            Err(code) => Err(LedgerError::Program(code)),
            Ok((after, event)) => Ok(
                (
                    LedgerView {
                        epoch_gauges: put(self.epoch_gauges, after.epoch_gauge),
                        epoch_gauge_voters: put(self.epoch_gauge_voters, after.epoch_gauge_voter),
                        commitments: self.commitments.remove(at),
                        ..self
                    },
                    event,
                ),
            ),
        }
    }

    /// What reverting the vote at `keys` does, for the epoch that is being
    /// voted on, from the epoch gauge at `epoch_gauge` and the snapshot at
    /// `epoch_gauge_voter`, for the one who asks as the vote delegate of the
    /// escrow: the ledger afterwards, without the commitment, and the
    /// record of the revert, or the reason for refusing. It is refused where
    /// the accounts are not all there, and where the gauge program refuses
    /// it.
    pub open spec fn gauge_revert_vote(
        self,
        keys: VoteKeys,
        epoch_gauge: Pubkey,
        epoch_gauge_voter: Pubkey,
        asking: Asking,
    ) -> Result<(LedgerView, RevertGaugeVoteEvent), LedgerError> {
        match self.revert_accounts(keys, epoch_gauge, epoch_gauge_voter, asking) {
            Err(error) => Err(error),
            Ok((accounts, at)) => match accounts.spec_validate() {
                Err(code) => Err(LedgerError::Program(code)),
                Ok(()) => self.with_revert(accounts, at),
            },
        }
    }
}

/// A new epoch gauge without power, at its derived address, keeps the
/// ledger as it should be.
pub proof fn lemma_new_epoch_gauge(ledger: LedgerView, epoch_gauge: Account<EpochGauge>)
    requires
        ledger.wf(),
        !has_key(ledger.epoch_gauges, epoch_gauge.key),
        address_of(
            EpochGauge::spec_find_program_address(
                epoch_gauge.data.gauge,
                epoch_gauge.data.voting_epoch,
            ),
        ) == Some(epoch_gauge.key),
        epoch_gauge.data.total_power == 0,
    ensures
        (LedgerView { epoch_gauges: ledger.epoch_gauges.push(epoch_gauge), ..ledger }).records_in_order(),
{
    let after = LedgerView { epoch_gauges: ledger.epoch_gauges.push(epoch_gauge), ..ledger };
    lemma_push_account(ledger.epoch_gauges, epoch_gauge);
    assert(after.addresses_derived()) by {
        assert forall|i: int| 0 <= i < after.epoch_gauges.len() implies address_of(
            EpochGauge::spec_find_program_address(
                (#[trigger] after.epoch_gauges[i]).data.gauge,
                after.epoch_gauges[i].data.voting_epoch,
            ),
        ) == Some(after.epoch_gauges[i].key) by {
            if i < ledger.epoch_gauges.len() {
                assert(after.epoch_gauges[i] == ledger.epoch_gauges[i]);
            }
        }
    }
    assert(after.gauge_power_conserved()) by {
        assert forall|i: int| 0 <= i < after.epoch_gauges.len() implies (
        #[trigger] after.epoch_gauges[i]).data.total_power == committed_to_gauge(
            after.commitments,
            after.epoch_gauges[i].data.gauge,
            after.epoch_gauges[i].data.voting_epoch,
        ) by {
            if i == ledger.epoch_gauges.len() {
                let term = power_for_gauge(epoch_gauge.data.gauge, epoch_gauge.data.voting_epoch);
                assert forall|j: int| 0 <= j < ledger.commitments.len() implies term(
                    #[trigger] ledger.commitments[j],
                ) == 0 by {
                    let commitment = ledger.commitments[j];
                    if commitment.gauge == epoch_gauge.data.gauge && commitment.voting_epoch
                        == epoch_gauge.data.voting_epoch {
                        assert(has_key(ledger.epoch_gauges, epoch_gauge.key));
                    }
                }
                lemma_sum_zero(ledger.commitments, term);
            } else {
                assert(after.epoch_gauges[i] == ledger.epoch_gauges[i]);
            }
        }
        assert forall|i: int| 0 <= i < after.commitments.len() implies {
            let commitment = #[trigger] after.commitments[i];
            address_of(
                EpochGauge::spec_find_program_address(commitment.gauge, commitment.voting_epoch),
            ) matches Some(key) && has_key(after.epoch_gauges, key)
        } by {
            let commitment = ledger.commitments[i];
            let key = address_of(
                EpochGauge::spec_find_program_address(commitment.gauge, commitment.voting_epoch),
            ).unwrap();
            assert(has_key(ledger.epoch_gauges, key));
        }
    }
}

/// A new snapshot with nothing allocated, at its derived address, keeps
/// the ledger as it should be.
pub proof fn lemma_new_snapshot(ledger: LedgerView, snapshot: Account<EpochGaugeVoter>)
    requires
        ledger.wf(),
        !has_key(ledger.epoch_gauge_voters, snapshot.key),
        address_of(
            EpochGaugeVoter::spec_find_program_address(
                snapshot.data.gauge_voter,
                snapshot.data.voting_epoch,
            ),
        ) == Some(snapshot.key),
        snapshot.data.allocated_power == 0,
        get(ledger.gauge_voters, snapshot.data.gauge_voter) matches Some(voter)
            && snapshot.data.weight_change_seqno <= voter.data.weight_change_seqno,
    ensures
        (LedgerView { epoch_gauge_voters: ledger.epoch_gauge_voters.push(snapshot), ..ledger }).records_in_order(),
{
    let after = LedgerView { epoch_gauge_voters: ledger.epoch_gauge_voters.push(snapshot), ..ledger };
    lemma_push_account(ledger.epoch_gauge_voters, snapshot);
    assert(after.addresses_derived()) by {
        assert forall|i: int| 0 <= i < after.epoch_gauge_voters.len() implies address_of(
            EpochGaugeVoter::spec_find_program_address(
                (#[trigger] after.epoch_gauge_voters[i]).data.gauge_voter,
                after.epoch_gauge_voters[i].data.voting_epoch,
            ),
        ) == Some(after.epoch_gauge_voters[i].key) by {
            if i < ledger.epoch_gauge_voters.len() {
                assert(after.epoch_gauge_voters[i] == ledger.epoch_gauge_voters[i]);
            }
        }
    }
    assert(after.commitments_have_snapshots()) by {
        assert forall|i: int| 0 <= i < after.commitments.len() implies {
            let commitment = #[trigger] after.commitments[i];
            address_of(
                EpochGaugeVoter::spec_find_program_address(
                    commitment.gauge_voter,
                    commitment.voting_epoch,
                ),
            ) matches Some(key) && has_key(after.epoch_gauge_voters, key)
        } by {
            let commitment = ledger.commitments[i];
            let key = address_of(
                EpochGaugeVoter::spec_find_program_address(
                    commitment.gauge_voter,
                    commitment.voting_epoch,
                ),
            ).unwrap();
            assert(has_key(ledger.epoch_gauge_voters, key));
        }
    }
    assert(after.voter_power_conserved()) by {
        assert forall|i: int| 0 <= i < after.epoch_gauge_voters.len() implies (
        #[trigger] after.epoch_gauge_voters[i]).data.allocated_power == committed_by_voter(
            after.commitments,
            after.epoch_gauge_voters[i].data.gauge_voter,
            after.epoch_gauge_voters[i].data.voting_epoch,
        ) by {
            if i == ledger.epoch_gauge_voters.len() {
                let term = power_of_voter(snapshot.data.gauge_voter, snapshot.data.voting_epoch);
                assert forall|j: int| 0 <= j < ledger.commitments.len() implies term(
                    #[trigger] ledger.commitments[j],
                ) == 0 by {
                    let commitment = ledger.commitments[j];
                    if commitment.gauge_voter == snapshot.data.gauge_voter
                        && commitment.voting_epoch == snapshot.data.voting_epoch {
                        assert(has_key(ledger.epoch_gauge_voters, snapshot.key));
                    }
                }
                lemma_sum_zero(ledger.commitments, term);
            } else {
                assert(after.epoch_gauge_voters[i] == ledger.epoch_gauge_voters[i]);
            }
        }
    }
}

/// A snapshot taken anew, with the voter, the epoch and the allocated
/// power that it had, keeps the ledger as it should be.
pub proof fn lemma_reset_snapshot(ledger: LedgerView, snapshot: Account<EpochGaugeVoter>)
    requires
        ledger.wf(),
        get(ledger.epoch_gauge_voters, snapshot.key) matches Some(before) && {
            &&& snapshot.data.gauge_voter == before.data.gauge_voter
            &&& snapshot.data.voting_epoch == before.data.voting_epoch
            &&& snapshot.data.allocated_power == before.data.allocated_power
        },
        get(ledger.gauge_voters, snapshot.data.gauge_voter) matches Some(voter)
            && snapshot.data.weight_change_seqno <= voter.data.weight_change_seqno,
    ensures
        (LedgerView { epoch_gauge_voters: put(ledger.epoch_gauge_voters, snapshot), ..ledger }).records_in_order(),
{
    let after = LedgerView { epoch_gauge_voters: put(ledger.epoch_gauge_voters, snapshot), ..ledger };
    lemma_put_account(ledger.epoch_gauge_voters, snapshot);
    lemma_get_found(ledger.epoch_gauge_voters, snapshot.key);
    assert(after.addresses_derived()) by {
        assert forall|i: int| 0 <= i < after.epoch_gauge_voters.len() implies address_of(
            EpochGaugeVoter::spec_find_program_address(
                (#[trigger] after.epoch_gauge_voters[i]).data.gauge_voter,
                after.epoch_gauge_voters[i].data.voting_epoch,
            ),
        ) == Some(after.epoch_gauge_voters[i].key) by {
            assert(after.epoch_gauge_voters[i].data.gauge_voter
                == ledger.epoch_gauge_voters[i].data.gauge_voter);
        }
    }
    assert(after.commitments_have_snapshots()) by {
        assert forall|i: int| 0 <= i < after.commitments.len() implies {
            let commitment = #[trigger] after.commitments[i];
            address_of(
                EpochGaugeVoter::spec_find_program_address(
                    commitment.gauge_voter,
                    commitment.voting_epoch,
                ),
            ) matches Some(key) && has_key(after.epoch_gauge_voters, key)
        } by {
            let commitment = ledger.commitments[i];
            let key = address_of(
                EpochGaugeVoter::spec_find_program_address(
                    commitment.gauge_voter,
                    commitment.voting_epoch,
                ),
            ).unwrap();
            assert(has_key(ledger.epoch_gauge_voters, key));
        }
    }
    assert(after.voter_power_conserved()) by {
        assert forall|i: int| 0 <= i < after.epoch_gauge_voters.len() implies (
        #[trigger] after.epoch_gauge_voters[i]).data.allocated_power == committed_by_voter(
            after.commitments,
            after.epoch_gauge_voters[i].data.gauge_voter,
            after.epoch_gauge_voters[i].data.voting_epoch,
        ) by {
            assert(ledger.epoch_gauge_voters[i].data.allocated_power == committed_by_voter(
                ledger.commitments,
                ledger.epoch_gauge_voters[i].data.gauge_voter,
                ledger.epoch_gauge_voters[i].data.voting_epoch,
            ));
        }
    }
}

/// Where no two commitments stand at one address, and each stands at the
/// address derived from its vote and epoch, the commitment of a vote for
/// an epoch stands at one place only.
pub proof fn lemma_commitment_at(ledger: LedgerView, at: int)
    requires
        ledger.keys_distinct(),
        ledger.addresses_derived(),
        0 <= at < ledger.commitments.len(),
    ensures
        is_committed(
            ledger.commitments,
            ledger.commitments[at].gauge_vote,
            ledger.commitments[at].voting_epoch,
        ),
        commitment_index(
            ledger.commitments,
            ledger.commitments[at].gauge_vote,
            ledger.commitments[at].voting_epoch,
        ) == at,
{
    let commitment = ledger.commitments[at];
    assert(commits(ledger.commitments[at], commitment.gauge_vote, commitment.voting_epoch));
    let found = commitment_index(
        ledger.commitments,
        commitment.gauge_vote,
        commitment.voting_epoch,
    );
    assert(commits(ledger.commitments[found], commitment.gauge_vote, commitment.voting_epoch));
    assert(ledger.commitments[found].key == ledger.commitments[at].key);
    if found < at {
        assert(ledger.commitments[found].key != ledger.commitments[at].key);
    } else if at < found {
        assert(ledger.commitments[at].key != ledger.commitments[found].key);
    }
}

/// A new commitment, at its derived address, of a vote that the ledger
/// holds, whose power enters the snapshot of its voter and epoch and the
/// epoch gauge of its gauge and epoch, keeps the ledger as it should be.
pub proof fn lemma_commit_conserves_power(
    ledger: LedgerView,
    epoch_gauge: Account<EpochGauge>,
    snapshot: Account<EpochGaugeVoter>,
    commitment: Commitment,
)
    requires
        ledger.wf(),
        !has_commitment_at(ledger.commitments, commitment.key),
        address_of(
            EpochGaugeVote::spec_find_program_address(
                commitment.gauge_vote,
                commitment.voting_epoch,
            ),
        ) == Some(commitment.key),
        get(ledger.gauge_votes, commitment.gauge_vote) matches Some(vote) && vote.data.gauge
            == commitment.gauge && vote.data.gauge_voter == commitment.gauge_voter,
        get(ledger.epoch_gauge_voters, snapshot.key) matches Some(before) && {
            &&& before.data.gauge_voter == commitment.gauge_voter
            &&& before.data.voting_epoch == commitment.voting_epoch
            &&& snapshot.data == (EpochGaugeVoter {
                allocated_power: snapshot.data.allocated_power,
                ..before.data
            })
            &&& snapshot.data.allocated_power == before.data.allocated_power
                + commitment.vote.allocated_power
        },
        get(ledger.epoch_gauges, epoch_gauge.key) matches Some(before) && {
            &&& before.data.gauge == commitment.gauge
            &&& before.data.voting_epoch == commitment.voting_epoch
            &&& epoch_gauge.data == (EpochGauge {
                total_power: epoch_gauge.data.total_power,
                ..before.data
            })
            &&& epoch_gauge.data.total_power == before.data.total_power
                + commitment.vote.allocated_power
        },
    ensures
        (LedgerView {
            epoch_gauges: put(ledger.epoch_gauges, epoch_gauge),
            epoch_gauge_voters: put(ledger.epoch_gauge_voters, snapshot),
            commitments: ledger.commitments.push(commitment),
            ..ledger
        }).records_in_order(),
{
    let after = LedgerView {
        epoch_gauges: put(ledger.epoch_gauges, epoch_gauge),
        epoch_gauge_voters: put(ledger.epoch_gauge_voters, snapshot),
        commitments: ledger.commitments.push(commitment),
        ..ledger
    };
    let gauge_at = index_of(ledger.epoch_gauges, epoch_gauge.key);
    let snapshot_at = index_of(ledger.epoch_gauge_voters, snapshot.key);
    lemma_put_account(ledger.epoch_gauges, epoch_gauge);
    lemma_put_account(ledger.epoch_gauge_voters, snapshot);
    lemma_get_found(ledger.epoch_gauges, epoch_gauge.key);
    lemma_get_found(ledger.epoch_gauge_voters, snapshot.key);
    assert(after.keys_distinct()) by {
        assert forall|i: int, j: int| 0 <= i < j < after.commitments.len() implies (
        #[trigger] after.commitments[i]).key != (#[trigger] after.commitments[j]).key by {
            if j == ledger.commitments.len() {
                assert(ledger.commitments[i].key != commitment.key);
            } else {
                assert(ledger.commitments[i].key != ledger.commitments[j].key);
            }
        }
    }
    assert(after.addresses_derived()) by {
        assert forall|i: int| 0 <= i < after.epoch_gauges.len() implies address_of(
            EpochGauge::spec_find_program_address(
                (#[trigger] after.epoch_gauges[i]).data.gauge,
                after.epoch_gauges[i].data.voting_epoch,
            ),
        ) == Some(after.epoch_gauges[i].key) by {
            assert(after.epoch_gauges[i].data.gauge == ledger.epoch_gauges[i].data.gauge);
        }
        assert forall|i: int| 0 <= i < after.epoch_gauge_voters.len() implies address_of(
            EpochGaugeVoter::spec_find_program_address(
                (#[trigger] after.epoch_gauge_voters[i]).data.gauge_voter,
                after.epoch_gauge_voters[i].data.voting_epoch,
            ),
        ) == Some(after.epoch_gauge_voters[i].key) by {
            assert(after.epoch_gauge_voters[i].data.gauge_voter
                == ledger.epoch_gauge_voters[i].data.gauge_voter);
        }
        assert forall|i: int| 0 <= i < after.commitments.len() implies address_of(
            EpochGaugeVote::spec_find_program_address(
                (#[trigger] after.commitments[i]).gauge_vote,
                after.commitments[i].voting_epoch,
            ),
        ) == Some(after.commitments[i].key) by {
            if i < ledger.commitments.len() {
                assert(after.commitments[i] == ledger.commitments[i]);
            }
        }
    }
    assert(after.commitments_have_votes()) by {
        assert forall|i: int| 0 <= i < after.commitments.len() implies {
            let held = #[trigger] after.commitments[i];
            get(after.gauge_votes, held.gauge_vote) matches Some(vote) && vote.data.gauge
                == held.gauge && vote.data.gauge_voter == held.gauge_voter
        } by {
            if i < ledger.commitments.len() {
                assert(after.commitments[i] == ledger.commitments[i]);
            }
        }
    }
    assert(after.commitments_have_snapshots()) by {
        assert forall|i: int| 0 <= i < after.commitments.len() implies {
            let held = #[trigger] after.commitments[i];
            address_of(
                EpochGaugeVoter::spec_find_program_address(held.gauge_voter, held.voting_epoch),
            ) matches Some(key) && has_key(after.epoch_gauge_voters, key)
        } by {
            if i < ledger.commitments.len() {
                let held = ledger.commitments[i];
                assert(after.commitments[i] == held);
                let key = address_of(
                    EpochGaugeVoter::spec_find_program_address(held.gauge_voter, held.voting_epoch),
                ).unwrap();
                assert(has_key(ledger.epoch_gauge_voters, key));
            } else {
                assert(ledger.epoch_gauge_voters[snapshot_at].key == snapshot.key);
                assert(has_key(ledger.epoch_gauge_voters, snapshot.key));
            }
        }
    }
    assert(after.voter_power_conserved()) by {
        assert forall|i: int| 0 <= i < after.epoch_gauge_voters.len() implies (
        #[trigger] after.epoch_gauge_voters[i]).data.allocated_power == committed_by_voter(
            after.commitments,
            after.epoch_gauge_voters[i].data.gauge_voter,
            after.epoch_gauge_voters[i].data.voting_epoch,
        ) by {
            let held = ledger.epoch_gauge_voters[i];
            lemma_sum_push(
                ledger.commitments,
                commitment,
                power_of_voter(held.data.gauge_voter, held.data.voting_epoch),
            );
            assert(held.data.allocated_power == committed_by_voter(
                ledger.commitments,
                held.data.gauge_voter,
                held.data.voting_epoch,
            ));
            if i != snapshot_at {
                lemma_get_at(ledger.epoch_gauge_voters, i);
                lemma_get_at(ledger.epoch_gauge_voters, snapshot_at);
                assert(held.key != snapshot.key);
                assert(after.epoch_gauge_voters[i] == held);
            }
        }
    }
    assert(after.gauge_power_conserved()) by {
        assert forall|i: int| 0 <= i < after.epoch_gauges.len() implies (
        #[trigger] after.epoch_gauges[i]).data.total_power == committed_to_gauge(
            after.commitments,
            after.epoch_gauges[i].data.gauge,
            after.epoch_gauges[i].data.voting_epoch,
        ) by {
            let held = ledger.epoch_gauges[i];
            lemma_sum_push(
                ledger.commitments,
                commitment,
                power_for_gauge(held.data.gauge, held.data.voting_epoch),
            );
            assert(held.data.total_power == committed_to_gauge(
                ledger.commitments,
                held.data.gauge,
                held.data.voting_epoch,
            ));
            if i != gauge_at {
                lemma_get_at(ledger.epoch_gauges, i);
                lemma_get_at(ledger.epoch_gauges, gauge_at);
                assert(held.key != epoch_gauge.key);
                assert(after.epoch_gauges[i] == held);
            }
        }
        assert forall|i: int| 0 <= i < after.commitments.len() implies {
            let held = #[trigger] after.commitments[i];
            address_of(EpochGauge::spec_find_program_address(held.gauge, held.voting_epoch))
                matches Some(key) && has_key(after.epoch_gauges, key)
        } by {
            if i < ledger.commitments.len() {
                let held = ledger.commitments[i];
                assert(after.commitments[i] == held);
                let key = address_of(
                    EpochGauge::spec_find_program_address(held.gauge, held.voting_epoch),
                ).unwrap();
                assert(has_key(ledger.epoch_gauges, key));
            } else {
                assert(ledger.epoch_gauges[gauge_at].key == epoch_gauge.key);
                assert(has_key(ledger.epoch_gauges, epoch_gauge.key));
            }
        }
    }
}

/// Taking a commitment out of the ledger, and its power out of the
/// snapshot of its voter and epoch and out of the epoch gauge of its gauge
/// and epoch, keeps the ledger as it should be.
pub proof fn lemma_revert_conserves_power(
    ledger: LedgerView,
    epoch_gauge: Account<EpochGauge>,
    snapshot: Account<EpochGaugeVoter>,
    at: int,
)
    requires
        ledger.wf(),
        0 <= at < ledger.commitments.len(),
        get(ledger.epoch_gauge_voters, snapshot.key) matches Some(before) && {
            &&& before.data.gauge_voter == ledger.commitments[at].gauge_voter
            &&& before.data.voting_epoch == ledger.commitments[at].voting_epoch
            &&& snapshot.data == (EpochGaugeVoter {
                allocated_power: snapshot.data.allocated_power,
                ..before.data
            })
            &&& snapshot.data.allocated_power == before.data.allocated_power
                - ledger.commitments[at].vote.allocated_power
        },
        get(ledger.epoch_gauges, epoch_gauge.key) matches Some(before) && {
            &&& before.data.gauge == ledger.commitments[at].gauge
            &&& before.data.voting_epoch == ledger.commitments[at].voting_epoch
            &&& epoch_gauge.data == (EpochGauge {
                total_power: epoch_gauge.data.total_power,
                ..before.data
            })
            &&& epoch_gauge.data.total_power == before.data.total_power
                - ledger.commitments[at].vote.allocated_power
        },
    ensures
        (LedgerView {
            epoch_gauges: put(ledger.epoch_gauges, epoch_gauge),
            epoch_gauge_voters: put(ledger.epoch_gauge_voters, snapshot),
            commitments: ledger.commitments.remove(at),
            ..ledger
        }).records_in_order(),
{
    let after = LedgerView {
        epoch_gauges: put(ledger.epoch_gauges, epoch_gauge),
        epoch_gauge_voters: put(ledger.epoch_gauge_voters, snapshot),
        commitments: ledger.commitments.remove(at),
        ..ledger
    };
    let commitment = ledger.commitments[at];
    let gauge_at = index_of(ledger.epoch_gauges, epoch_gauge.key);
    let snapshot_at = index_of(ledger.epoch_gauge_voters, snapshot.key);
    lemma_put_account(ledger.epoch_gauges, epoch_gauge);
    lemma_put_account(ledger.epoch_gauge_voters, snapshot);
    lemma_get_found(ledger.epoch_gauges, epoch_gauge.key);
    lemma_get_found(ledger.epoch_gauge_voters, snapshot.key);
    assert forall|i: int| 0 <= i < after.commitments.len() implies #[trigger] after.commitments[i]
        == ledger.commitments[if i < at {
        i
    } else {
        i + 1
    }] by {}
    assert(after.keys_distinct()) by {
        assert forall|i: int, j: int| 0 <= i < j < after.commitments.len() implies (
        #[trigger] after.commitments[i]).key != (#[trigger] after.commitments[j]).key by {
            let before_i = if i < at {
                i
            } else {
                i + 1
            };
            let before_j = if j < at {
                j
            } else {
                j + 1
            };
            assert(ledger.commitments[before_i].key != ledger.commitments[before_j].key);
        }
    }
    assert(after.addresses_derived()) by {
        assert forall|i: int| 0 <= i < after.epoch_gauges.len() implies address_of(
            EpochGauge::spec_find_program_address(
                (#[trigger] after.epoch_gauges[i]).data.gauge,
                after.epoch_gauges[i].data.voting_epoch,
            ),
        ) == Some(after.epoch_gauges[i].key) by {
            assert(after.epoch_gauges[i].data.gauge == ledger.epoch_gauges[i].data.gauge);
        }
        assert forall|i: int| 0 <= i < after.epoch_gauge_voters.len() implies address_of(
            EpochGaugeVoter::spec_find_program_address(
                (#[trigger] after.epoch_gauge_voters[i]).data.gauge_voter,
                after.epoch_gauge_voters[i].data.voting_epoch,
            ),
        ) == Some(after.epoch_gauge_voters[i].key) by {
            assert(after.epoch_gauge_voters[i].data.gauge_voter
                == ledger.epoch_gauge_voters[i].data.gauge_voter);
        }
        assert forall|i: int| 0 <= i < after.commitments.len() implies address_of(
            EpochGaugeVote::spec_find_program_address(
                (#[trigger] after.commitments[i]).gauge_vote,
                after.commitments[i].voting_epoch,
            ),
        ) == Some(after.commitments[i].key) by {
            let before_i = if i < at {
                i
            } else {
                i + 1
            };
            assert(after.commitments[i] == ledger.commitments[before_i]);
        }
    }
    assert(after.commitments_have_votes()) by {
        assert forall|i: int| 0 <= i < after.commitments.len() implies {
            let held = #[trigger] after.commitments[i];
            get(after.gauge_votes, held.gauge_vote) matches Some(vote) && vote.data.gauge
                == held.gauge && vote.data.gauge_voter == held.gauge_voter
        } by {
            let before_i = if i < at {
                i
            } else {
                i + 1
            };
            assert(after.commitments[i] == ledger.commitments[before_i]);
        }
    }
    assert(after.commitments_have_snapshots()) by {
        assert forall|i: int| 0 <= i < after.commitments.len() implies {
            let held = #[trigger] after.commitments[i];
            address_of(
                EpochGaugeVoter::spec_find_program_address(held.gauge_voter, held.voting_epoch),
            ) matches Some(key) && has_key(after.epoch_gauge_voters, key)
        } by {
            let before_i = if i < at {
                i
            } else {
                i + 1
            };
            let held = ledger.commitments[before_i];
            assert(after.commitments[i] == held);
            let key = address_of(
                EpochGaugeVoter::spec_find_program_address(held.gauge_voter, held.voting_epoch),
            ).unwrap();
            assert(has_key(ledger.epoch_gauge_voters, key));
        }
    }
    assert(after.voter_power_conserved()) by {
        assert forall|i: int| 0 <= i < after.epoch_gauge_voters.len() implies (
        #[trigger] after.epoch_gauge_voters[i]).data.allocated_power == committed_by_voter(
            after.commitments,
            after.epoch_gauge_voters[i].data.gauge_voter,
            after.epoch_gauge_voters[i].data.voting_epoch,
        ) by {
            let held = ledger.epoch_gauge_voters[i];
            lemma_sum_remove(
                ledger.commitments,
                at,
                power_of_voter(held.data.gauge_voter, held.data.voting_epoch),
            );
            assert(held.data.allocated_power == committed_by_voter(
                ledger.commitments,
                held.data.gauge_voter,
                held.data.voting_epoch,
            ));
            if i != snapshot_at {
                lemma_get_at(ledger.epoch_gauge_voters, i);
                lemma_get_at(ledger.epoch_gauge_voters, snapshot_at);
                assert(held.key != snapshot.key);
                assert(after.epoch_gauge_voters[i] == held);
            }
        }
    }
    assert(after.gauge_power_conserved()) by {
        assert forall|i: int| 0 <= i < after.epoch_gauges.len() implies (
        #[trigger] after.epoch_gauges[i]).data.total_power == committed_to_gauge(
            after.commitments,
            after.epoch_gauges[i].data.gauge,
            after.epoch_gauges[i].data.voting_epoch,
        ) by {
            let held = ledger.epoch_gauges[i];
            lemma_sum_remove(
                ledger.commitments,
                at,
                power_for_gauge(held.data.gauge, held.data.voting_epoch),
            );
            assert(held.data.total_power == committed_to_gauge(
                ledger.commitments,
                held.data.gauge,
                held.data.voting_epoch,
            ));
            if i != gauge_at {
                lemma_get_at(ledger.epoch_gauges, i);
                lemma_get_at(ledger.epoch_gauges, gauge_at);
                assert(held.key != epoch_gauge.key);
                assert(after.epoch_gauges[i] == held);
            }
        }
        assert forall|i: int| 0 <= i < after.commitments.len() implies {
            let held = #[trigger] after.commitments[i];
            address_of(EpochGauge::spec_find_program_address(held.gauge, held.voting_epoch))
                matches Some(key) && has_key(after.epoch_gauges, key)
        } by {
            let before_i = if i < at {
                i
            } else {
                i + 1
            };
            let held = ledger.commitments[before_i];
            assert(after.commitments[i] == held);
            let key = address_of(
                EpochGauge::spec_find_program_address(held.gauge, held.voting_epoch),
            ).unwrap();
            assert(has_key(ledger.epoch_gauges, key));
        }
    }
}

/// Finds where in `commitments` the epoch gauge vote at `key` stands.
pub(crate) fn find_commitment_at(commitments: &Vec<Commitment>, key: &Pubkey) -> (found: Option<
    usize,
>)
    ensures
        match found {
            Some(at) => at < commitments.len() && commitments@[at as int].key == *key,
            None => !has_commitment_at(commitments@, *key),
        },
{
    let mut i: usize = 0;
    while i < commitments.len()
        invariant
            i <= commitments.len(),
            forall|j: int| 0 <= j < i ==> (#[trigger] commitments@[j]).key != *key,
        decreases commitments.len() - i,
    {
        if commitments[i].key == *key {
            return Some(i);
        }
        i += 1;
    }
    None
}

/// Finds where in `commitments` the commitment of the vote at `gauge_vote`
/// for the epoch `voting_epoch` stands.
pub(crate) fn find_commitment(
    commitments: &Vec<Commitment>,
    gauge_vote: &Pubkey,
    voting_epoch: u32,
) -> (found: Option<usize>)
    ensures
        match found {
            Some(at) => at < commitments.len() && commits(
                commitments@[at as int],
                *gauge_vote,
                voting_epoch,
            ),
            None => !is_committed(commitments@, *gauge_vote, voting_epoch),
        },
{
    let mut i: usize = 0;
    while i < commitments.len()
        invariant
            i <= commitments.len(),
            forall|j: int|
                0 <= j < i ==> !commits(#[trigger] commitments@[j], *gauge_vote, voting_epoch),
        decreases commitments.len() - i,
    {
        if commitments[i].gauge_vote == *gauge_vote && commitments[i].voting_epoch == voting_epoch {
            return Some(i);
        }
        i += 1;
    }
    None
}

impl Ledger {
    /// Creates the epoch gauge of the gauge at `gauge` for the epoch
    /// `voting_epoch`, and gives its address.
    pub fn create_epoch_gauge(&mut self, gauge: &Pubkey, voting_epoch: u32) -> (result: Result<
        Pubkey,
        LedgerError,
    >)
        requires
            old(self).wf(),
        ensures
            final(self).wf(),
            match old(self)@.create_epoch_gauge(*gauge, voting_epoch) {
                Ok((after, key)) => result == Ok::<_, LedgerError>(key) && final(self)@ == after,
                Err(error) => result == Err::<Pubkey, _>(error) && final(self)@ == old(self)@,
            },
    {
        let gauge_at = match find_account(&self.gauges, gauge) {
            Some(at) => at,
            None => return Err(LedgerError::AccountNotFound),
        };
        proof {
            lemma_get_at(self.gauges@, gauge_at as int);
        }
        let gauge = self.gauges[gauge_at];
        let (key, bump) = match EpochGauge::find_program_address(&gauge.key, voting_epoch) {
            Some(found) => found,
            None => return Err(LedgerError::NoAddress),
        };
        if find_account(&self.epoch_gauges, &key).is_some() {
            return Err(LedgerError::AccountAlreadyExists);
        }
        let mut accounts = CreateEpochGauge {
            gauge,
            epoch_gauge: Account { key, data: EpochGauge::default() },
        };
        match gauge::create_epoch_gauge(&mut accounts, bump, voting_epoch) {
            Err(code) => Err(LedgerError::Program(code)),
            Ok(()) => {
                proof {
                    lemma_new_epoch_gauge(old(self)@, accounts.epoch_gauge);
                }
                self.epoch_gauges.push(accounts.epoch_gauge);
                Ok(key)
            },
        }
    }

    /// Takes a snapshot of the power of the voter at `gauge_voter` for the
    /// epoch that is being voted on, and gives the snapshot's address with
    /// the record of it.
    pub fn prepare_epoch_gauge_voter(
        &mut self,
        gaugemeister: &Pubkey,
        gauge_voter: &Pubkey,
        locker: Account<Locker>,
        escrow: Account<Escrow>,
    ) -> (result: Result<(Pubkey, PrepareEpochGaugeVoterEvent), LedgerError>)
        requires
            old(self).wf(),
        ensures
            final(self).wf(),
            match old(self)@.prepare_epoch_gauge_voter(*gaugemeister, *gauge_voter, locker, escrow) {
                Ok((after, prepared)) => result == Ok::<_, LedgerError>(prepared) && final(self)@
                    == after,
                Err(error) => result == Err::<(Pubkey, PrepareEpochGaugeVoterEvent), _>(error)
                    && final(self)@ == old(self)@,
            },
    {
        let found = (
            find_account(&self.gaugemeisters, gaugemeister),
            find_account(&self.gauge_voters, gauge_voter),
        );
        let (gaugemeister_at, voter_at) = match found {
            (Some(gaugemeister_at), Some(voter_at)) => (gaugemeister_at, voter_at),
            _ => return Err(LedgerError::AccountNotFound),
        };
        proof {
            lemma_get_at(self.gaugemeisters@, gaugemeister_at as int);
            lemma_get_at(self.gauge_voters@, voter_at as int);
        }
        let gaugemeister = self.gaugemeisters[gaugemeister_at];
        let gauge_voter = self.gauge_voters[voter_at];
        let voting_epoch = match gaugemeister.data.voting_epoch() {
            Ok(voting_epoch) => voting_epoch,
            Err(code) => return Err(LedgerError::Program(code)),
        };
        let (key, bump) = match EpochGaugeVoter::find_program_address(
            &gauge_voter.key,
            voting_epoch,
        ) {
            Some(found) => found,
            None => return Err(LedgerError::NoAddress),
        };
        if find_account(&self.epoch_gauge_voters, &key).is_some() {
            return Err(LedgerError::AccountAlreadyExists);
        }
        let mut accounts = PrepareEpochGaugeVoter {
            gaugemeister,
            locker,
            escrow,
            gauge_voter,
            epoch_gauge_voter: Account { key, data: EpochGaugeVoter::default() },
        };
        match gauge::prepare_epoch_gauge_voter(&mut accounts, bump) {
            Err(code) => Err(LedgerError::Program(code)),
            Ok(event) => {
                proof {
                    lemma_new_snapshot(old(self)@, accounts.epoch_gauge_voter);
                    lemma_new_snapshot_bounds_power(old(self)@, accounts.epoch_gauge_voter);
                }
                self.epoch_gauge_voters.push(accounts.epoch_gauge_voter);
                Ok((key, event))
            },
        }
    }

    /// Takes the snapshot at `epoch_gauge_voter` anew.
    pub fn reset_epoch_gauge_voter(
        &mut self,
        gaugemeister: &Pubkey,
        gauge_voter: &Pubkey,
        epoch_gauge_voter: &Pubkey,
        locker: Account<Locker>,
        escrow: Account<Escrow>,
    ) -> (result: Result<ResetEpochGaugeVoterEvent, LedgerError>)
        requires
            old(self).wf(),
        ensures
            final(self).wf(),
            match old(self)@.reset_epoch_gauge_voter(
                *gaugemeister,
                *gauge_voter,
                *epoch_gauge_voter,
                locker,
                escrow,
            ) {
                Ok((after, event)) => result == Ok::<_, LedgerError>(event) && final(self)@
                    == after,
                Err(error) => result == Err::<ResetEpochGaugeVoterEvent, _>(error) && final(self)@
                    == old(self)@,
            },
    {
        let found = (
            find_account(&self.gaugemeisters, gaugemeister),
            find_account(&self.gauge_voters, gauge_voter),
            find_account(&self.epoch_gauge_voters, epoch_gauge_voter),
        );
        let (gaugemeister_at, voter_at, snapshot_at) = match found {
            (Some(gaugemeister_at), Some(voter_at), Some(snapshot_at)) => (
                gaugemeister_at,
                voter_at,
                snapshot_at,
            ),
            _ => return Err(LedgerError::AccountNotFound),
        };
        proof {
            lemma_get_at(self.gaugemeisters@, gaugemeister_at as int);
            lemma_get_at(self.gauge_voters@, voter_at as int);
            lemma_get_at(self.epoch_gauge_voters@, snapshot_at as int);
        }
        let mut accounts = ResetEpochGaugeVoter {
            gaugemeister: self.gaugemeisters[gaugemeister_at],
            locker,
            escrow,
            gauge_voter: self.gauge_voters[voter_at],
            epoch_gauge_voter: self.epoch_gauge_voters[snapshot_at],
        };
        match gauge::reset_epoch_gauge_voter(&mut accounts) {
            Err(code) => Err(LedgerError::Program(code)),
            Ok(event) => {
                proof {
                    lemma_reset_snapshot(old(self)@, accounts.epoch_gauge_voter);
                    lemma_reset_snapshot_bounds_power(old(self)@, accounts.epoch_gauge_voter);
                }
                self.epoch_gauge_voters.set(snapshot_at, accounts.epoch_gauge_voter);
                Ok(event)
            },
        }
    }

    /// Commits the vote at `keys` to the epoch gauge at `epoch_gauge`,
    /// against the snapshot at `epoch_gauge_voter`. Anyone may.
    pub fn gauge_commit_vote(
        &mut self,
        keys: &VoteKeys,
        epoch_gauge: &Pubkey,
        epoch_gauge_voter: &Pubkey,
    ) -> (result: Result<Option<CommitGaugeVoteEvent>, LedgerError>)
        requires
            old(self).wf(),
        ensures
            final(self).wf(),
            match old(self)@.gauge_commit_vote(*keys, *epoch_gauge, *epoch_gauge_voter) {
                Ok((after, event)) => result == Ok::<_, LedgerError>(event) && final(self)@
                    == after,
                Err(error) => result == Err::<Option<CommitGaugeVoteEvent>, _>(error)
                    && final(self)@ == old(self)@,
            },
    {
        let found = (
            find_account(&self.gaugemeisters, &keys.gaugemeister),
            find_account(&self.gauges, &keys.gauge),
            find_account(&self.gauge_voters, &keys.gauge_voter),
            find_account(&self.gauge_votes, &keys.gauge_vote),
            find_account(&self.epoch_gauges, epoch_gauge),
            find_account(&self.epoch_gauge_voters, epoch_gauge_voter),
        );
        let (gaugemeister_at, gauge_at, voter_at, vote_at, epoch_gauge_at, snapshot_at) =
            match found {
            (
                Some(gaugemeister_at),
                Some(gauge_at),
                Some(voter_at),
                Some(vote_at),
                Some(epoch_gauge_at),
                Some(snapshot_at),
            ) => (gaugemeister_at, gauge_at, voter_at, vote_at, epoch_gauge_at, snapshot_at),
            _ => return Err(LedgerError::AccountNotFound),
        };
        proof {
            lemma_get_at(self.gaugemeisters@, gaugemeister_at as int);
            lemma_get_at(self.gauges@, gauge_at as int);
            lemma_get_at(self.gauge_voters@, voter_at as int);
            lemma_get_at(self.gauge_votes@, vote_at as int);
            lemma_get_at(self.epoch_gauges@, epoch_gauge_at as int);
            lemma_get_at(self.epoch_gauge_voters@, snapshot_at as int);
        }
        let gauge_vote = self.gauge_votes[vote_at];
        let snapshot = self.epoch_gauge_voters[snapshot_at];
        let (key, bump) = match EpochGaugeVote::find_program_address(
            &gauge_vote.key,
            snapshot.data.voting_epoch,
        ) {
            Some(found) => found,
            None => return Err(LedgerError::NoAddress),
        };
        if find_commitment_at(&self.commitments, &key).is_some() {
            return Err(LedgerError::AccountAlreadyExists);
        }
        let mut accounts = GaugeCommitVote {
            gaugemeister: self.gaugemeisters[gaugemeister_at],
            gauge: self.gauges[gauge_at],
            gauge_voter: self.gauge_voters[voter_at],
            gauge_vote,
            epoch_gauge: self.epoch_gauges[epoch_gauge_at],
            epoch_gauge_voter: snapshot,
            epoch_gauge_vote: Account { key, data: EpochGaugeVote { allocated_power: 0 } },
        };
        match gauge::gauge_commit_vote(&mut accounts, bump) {
            Err(code) => Err(LedgerError::Program(code)),
            Ok(None) => Ok(None),
            Ok(Some(event)) => {
                let commitment = Commitment {
                    key,
                    gauge_vote: gauge_vote.key,
                    gauge: accounts.gauge.key,
                    gauge_voter: accounts.gauge_voter.key,
                    voting_epoch: snapshot.data.voting_epoch,
                    vote: accounts.epoch_gauge_vote.data,
                };
                proof {
                    lemma_commit_conserves_power(
                        old(self)@,
                        accounts.epoch_gauge,
                        accounts.epoch_gauge_voter,
                        commitment,
                    );
                    lemma_share_is_rounded_down(
                        snapshot.data.voting_power,
                        gauge_vote.data.weight,
                        accounts.gauge_voter.data.total_weight,
                    );
                    lemma_commit_bounds_power(
                        old(self)@,
                        accounts.epoch_gauge,
                        accounts.epoch_gauge_voter,
                        commitment,
                    );
                }
                self.epoch_gauges.set(epoch_gauge_at, accounts.epoch_gauge);
                self.epoch_gauge_voters.set(snapshot_at, accounts.epoch_gauge_voter);
                self.commitments.push(commitment);
                Ok(Some(event))
            },
        }
    }

    /// Reverts the vote at `keys` for the epoch that is being voted on,
    /// from the epoch gauge at `epoch_gauge` and the snapshot at
    /// `epoch_gauge_voter`, for the one who asks as the vote delegate of the
    /// escrow.
    pub fn gauge_revert_vote(
        &mut self,
        keys: &VoteKeys,
        epoch_gauge: &Pubkey,
        epoch_gauge_voter: &Pubkey,
        asking: Asking,
    ) -> (result: Result<RevertGaugeVoteEvent, LedgerError>)
        requires
            old(self).wf(),
        ensures
            final(self).wf(),
            match old(self)@.gauge_revert_vote(*keys, *epoch_gauge, *epoch_gauge_voter, asking) {
                Ok((after, event)) => result == Ok::<_, LedgerError>(event) && final(self)@
                    == after,
                Err(error) => result == Err::<RevertGaugeVoteEvent, _>(error) && final(self)@
                    == old(self)@,
            },
    {
        let found = (
            find_account(&self.gaugemeisters, &keys.gaugemeister),
            find_account(&self.gauges, &keys.gauge),
            find_account(&self.gauge_voters, &keys.gauge_voter),
            find_account(&self.gauge_votes, &keys.gauge_vote),
            find_account(&self.epoch_gauges, epoch_gauge),
            find_account(&self.epoch_gauge_voters, epoch_gauge_voter),
        );
        let (gaugemeister_at, gauge_at, voter_at, vote_at, epoch_gauge_at, snapshot_at) =
            match found {
            (
                Some(gaugemeister_at),
                Some(gauge_at),
                Some(voter_at),
                Some(vote_at),
                Some(epoch_gauge_at),
                Some(snapshot_at),
            ) => (gaugemeister_at, gauge_at, voter_at, vote_at, epoch_gauge_at, snapshot_at),
            _ => return Err(LedgerError::AccountNotFound),
        };
        proof {
            lemma_get_at(self.gaugemeisters@, gaugemeister_at as int);
            lemma_get_at(self.gauges@, gauge_at as int);
            lemma_get_at(self.gauge_voters@, voter_at as int);
            lemma_get_at(self.gauge_votes@, vote_at as int);
            lemma_get_at(self.epoch_gauges@, epoch_gauge_at as int);
            lemma_get_at(self.epoch_gauge_voters@, snapshot_at as int);
        }
        let gaugemeister = self.gaugemeisters[gaugemeister_at];
        let gauge_vote = self.gauge_votes[vote_at];
        let voting_epoch = match gaugemeister.data.voting_epoch() {
            Ok(voting_epoch) => voting_epoch,
            Err(code) => return Err(LedgerError::Program(code)),
        };
        let at = match find_commitment(&self.commitments, &gauge_vote.key, voting_epoch) {
            Some(at) => at,
            None => return Err(LedgerError::AccountNotFound),
        };
        proof {
            lemma_commitment_at(self@, at as int);
        }
        let commitment = self.commitments[at];
        let mut accounts = GaugeRevertVote {
            gaugemeister,
            gauge: self.gauges[gauge_at],
            gauge_voter: self.gauge_voters[voter_at],
            gauge_vote,
            epoch_gauge: self.epoch_gauges[epoch_gauge_at],
            epoch_gauge_voter: self.epoch_gauge_voters[snapshot_at],
            escrow: asking.escrow,
            vote_delegate: asking.vote_delegate,
            epoch_gauge_vote: Account { key: commitment.key, data: commitment.vote },
        };
        match gauge::gauge_revert_vote(&mut accounts) {
            Err(code) => Err(LedgerError::Program(code)),
            Ok(event) => {
                proof {
                    lemma_revert_conserves_power(
                        old(self)@,
                        accounts.epoch_gauge,
                        accounts.epoch_gauge_voter,
                        at as int,
                    );
                    lemma_revert_bounds_power(
                        old(self)@,
                        accounts.epoch_gauge,
                        accounts.epoch_gauge_voter,
                        at as int,
                    );
                }
                self.epoch_gauges.set(epoch_gauge_at, accounts.epoch_gauge);
                self.epoch_gauge_voters.set(snapshot_at, accounts.epoch_gauge_voter);
                self.commitments.remove(at);
                Ok(event)
            },
        }
    }
}

} // verus!
