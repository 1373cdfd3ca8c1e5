//! Delegations in the ledger, and voting on behalf of a voter.

use vstd::prelude::*;
use crate::account::Account;
use crate::instructions::create_gauge_delegation;
use crate::instructions::create_gauge_delegation::CreateGaugeDelegation;
use crate::instructions::delegated_gauge_commit_vote;
use crate::instructions::delegated_gauge_commit_vote::DelegatedGaugeCommitVote;
use crate::instructions::delegated_gauge_revert_vote;
use crate::instructions::delegated_gauge_revert_vote::DelegatedGaugeRevertVote;
use crate::instructions::delegated_gauge_set_vote;
use crate::instructions::delegated_gauge_set_vote::DelegatedGaugeSetVote;
use crate::instructions::delegation_set_vote_committer;
use crate::instructions::delegation_set_vote_committer::DelegationSetVoteCommitter;
use crate::instructions::delegation_set_vote_setter;
use crate::instructions::delegation_set_vote_setter::DelegationSetVoteSetter;
use crate::instructions::gauge_commit_vote::CommitGaugeVoteEvent;
use crate::instructions::gauge_commit_vote_v2;
use crate::instructions::gauge_commit_vote_v2::GaugeCommitVoteV2;
use crate::instructions::gauge_revert_vote::{GaugeRevertVote, RevertGaugeVoteEvent};
use crate::instructions::gauge_set_vote::{GaugeSetVote, SetGaugeVoteEvent};
use crate::ledger::bounds::{
    lemma_commit_bounds_power,
    lemma_revert_bounds_power,
    lemma_set_vote_bounds_power,
    lemma_share_is_rounded_down,
};
use crate::ledger::power::{
    find_commitment,
    find_commitment_at,
    lemma_commit_conserves_power,
    lemma_commitment_at,
    lemma_revert_conserves_power,
};
use crate::ledger::view::{
    get,
    has_commitment_at,
    has_key,
    lemma_get_at,
    lemma_push_account,
    lemma_put_account,
    put,
    Commitment,
    LedgerView,
};
use crate::ledger::weights::{lemma_set_vote_conserves_weights, Asking, VoteKeys};
use crate::ledger::{find_account, Ledger, LedgerError};
use crate::locker::Escrow;
use crate::pubkey::Pubkey;
use crate::state::{EpochGaugeVote, GaugeDelegation};

verus! {

impl LedgerView {
    /// What creating the delegation of the voter at `gauge_voter` does: the
    /// ledger afterwards and the address of the delegation, or the reason
    /// for refusing. It is refused where the ledger lacks the voter, where
    /// the delegation has no address or exists already, and where the gauge
    /// program refuses it.
    pub open spec fn create_gauge_delegation(self, gauge_voter: Pubkey, escrow: Account<Escrow>)
        -> Result<(LedgerView, Pubkey), LedgerError> {
        match get(self.gauge_voters, gauge_voter) {
            None => Err(LedgerError::AccountNotFound),
            Some(gauge_voter) => match GaugeDelegation::spec_find_program_address(gauge_voter.key) {
                None => Err(LedgerError::NoAddress),
                Some((key, _)) => if has_key(self.gauge_delegations, key) {
                    Err(LedgerError::AccountAlreadyExists)
                } else {
                    let accounts = CreateGaugeDelegation {
                        gauge_delegation: Account { key, data: arbitrary() },
                        gauge_voter,
                        escrow,
                    };
                    match accounts.spec_validate() {
                        Err(code) => Err(LedgerError::Program(code)),
                        Ok(()) => Ok(
                            (
                                LedgerView {
                                    gauge_delegations: self.gauge_delegations.push(
                                        Account { key, data: accounts.created() },
                                    ),
                                    ..self
                                },
                                key,
                            ),
                        ),
                    }
                },
            },
        }
    }

    /// What setting the vote setter of the delegation at `gauge_delegation`
    /// to `new_vote_setter` does, for the one who asks: the ledger
    /// afterwards, or the reason for refusing. It is refused where the
    /// ledger lacks the delegation or the voter, and where the gauge program
    /// refuses it.
    pub open spec fn delegation_set_vote_setter(
        self,
        gauge_delegation: Pubkey,
        gauge_voter: Pubkey,
        asking: Asking,
        new_vote_setter: Pubkey,
    ) -> Result<LedgerView, LedgerError> {
        match (get(self.gauge_delegations, gauge_delegation), get(self.gauge_voters, gauge_voter)) {
            (Some(gauge_delegation), Some(gauge_voter)) => {
                let accounts = DelegationSetVoteSetter {
                    gauge_delegation,
                    gauge_voter,
                    escrow: asking.escrow,
                    escrow_vote_delegate: asking.vote_delegate,
                    new_vote_setter,
                };
                match accounts.spec_validate() {
                    Err(code) => Err(LedgerError::Program(code)),
                    Ok(()) => Ok(
                        LedgerView {
                            gauge_delegations: put(
                                self.gauge_delegations,
                                Account {
                                    key: gauge_delegation.key,
                                    data: GaugeDelegation {
                                        vote_setter: new_vote_setter,
                                        ..gauge_delegation.data
                                    },
                                },
                            ),
                            ..self
                        },
                    ),
                }
            },
            _ => Err(LedgerError::AccountNotFound),
        }
    }

    /// What setting the vote committer of the delegation at
    /// `gauge_delegation` to `new_vote_committer` does, for the one who
    /// asks: the ledger afterwards, or the reason for refusing. It is
    /// refused where the ledger lacks the delegation or the voter, and
    /// where the gauge program refuses it.
    pub open spec fn delegation_set_vote_committer(
        self,
        gauge_delegation: Pubkey,
        gauge_voter: Pubkey,
        asking: Asking,
        new_vote_committer: Pubkey,
    ) -> Result<LedgerView, LedgerError> {
        match (get(self.gauge_delegations, gauge_delegation), get(self.gauge_voters, gauge_voter)) {
            (Some(gauge_delegation), Some(gauge_voter)) => {
                let accounts = DelegationSetVoteCommitter {
                    gauge_delegation,
                    gauge_voter,
                    escrow: asking.escrow,
                    escrow_vote_delegate: asking.vote_delegate,
                    new_vote_committer,
                };
                match accounts.spec_validate() {
                    Err(code) => Err(LedgerError::Program(code)),
                    Ok(()) => Ok(
                        LedgerView {
                            gauge_delegations: put(
                                self.gauge_delegations,
                                Account {
                                    key: gauge_delegation.key,
                                    data: GaugeDelegation {
                                        vote_committer: new_vote_committer,
                                        ..gauge_delegation.data
                                    },
                                },
                            ),
                            ..self
                        },
                    ),
                }
            },
            _ => Err(LedgerError::AccountNotFound),
        }
    }

    /// What setting the weight of the vote at `keys` to `weight` does, for
    /// the one who asks as the vote setter of the delegation at
    /// `gauge_delegation`: the ledger afterwards and the record of the
    /// change, or the reason for refusing. It is refused where the ledger
    /// lacks one of the records, and where the gauge program refuses it.
    pub open spec fn delegated_gauge_set_vote(
        self,
        keys: VoteKeys,
        gauge_delegation: Pubkey,
        asking: Asking,
        weight: u32,
    ) -> Result<(LedgerView, Option<SetGaugeVoteEvent>), LedgerError> {
        match (
            self.set_vote_accounts(keys, asking),
            get(self.gauge_delegations, gauge_delegation),
        ) {
            (Some(common), Some(gauge_delegation)) => match (DelegatedGaugeSetVote {
                common,
                gauge_delegation,
            }).spec_validate() {
                Err(code) => Err(LedgerError::Program(code)),
                Ok(()) => match common.spec_set_vote(weight) {
                    Err(code) => Err(LedgerError::Program(code)),
                    Ok((after, event)) => Ok((self.with_vote(after), event)),
                },
            },
            _ => Err(LedgerError::AccountNotFound),
        }
    }

    /// The accounts for committing the vote at `keys` on behalf of the
    /// voter, where the ledger holds them all and the epoch gauge vote has
    /// an address.
    pub open spec fn commit_accounts(
        self,
        keys: VoteKeys,
        epoch_gauge: Pubkey,
        epoch_gauge_voter: Pubkey,
        asking: Asking,
    ) -> Result<GaugeCommitVoteV2, LedgerError> {
        match (
            get(self.gaugemeisters, keys.gaugemeister),
            get(self.gauges, keys.gauge),
            get(self.gauge_voters, keys.gauge_voter),
            get(self.gauge_votes, keys.gauge_vote),
            get(self.epoch_gauges, epoch_gauge),
            get(self.epoch_gauge_voters, epoch_gauge_voter),
        ) {
            (
                Some(gaugemeister),
                Some(gauge),
                Some(gauge_voter),
                Some(gauge_vote),
                Some(epoch_gauge),
                Some(epoch_gauge_voter),
            ) => match EpochGaugeVote::spec_find_program_address(
                gauge_vote.key,
                epoch_gauge_voter.data.voting_epoch,
            ) {
                None => Err(LedgerError::NoAddress),
                Some((key, _)) => if has_commitment_at(self.commitments, key) {
                    Err(LedgerError::AccountAlreadyExists)
                } else {
                    Ok(
                        GaugeCommitVoteV2 {
                            gaugemeister,
                            gauge,
                            gauge_voter,
                            gauge_vote,
                            epoch_gauge,
                            epoch_gauge_voter,
                            epoch_gauge_vote: Account {
                                key,
                                data: EpochGaugeVote { allocated_power: 0 },
                            },
                            escrow: asking.escrow,
                            vote_delegate: asking.vote_delegate,
                        },
                    )
                },
            },
            _ => Err(LedgerError::AccountNotFound),
        }
    }

    /// What committing the vote of `accounts` does to the ledger, once it
    /// is found in order: the ledger afterwards and the record of the
    /// commit, or the reason for refusing. A vote without weight is not
    /// committed, and the ledger stays as it is.
    pub open spec fn with_commit(self, accounts: GaugeCommitVoteV2) -> Result<
        (LedgerView, Option<CommitGaugeVoteEvent>),
        LedgerError,
    > {
        match accounts.spec_commit_vote() {
            Err(code) => Err(LedgerError::Program(code)),
            Ok((_, None)) => Ok((self, None)),
            Ok((after, Some(event))) => Ok(
                (
                    LedgerView {
                        epoch_gauges: put(self.epoch_gauges, after.epoch_gauge),
                        epoch_gauge_voters: put(self.epoch_gauge_voters, after.epoch_gauge_voter),
                        commitments: self.commitments.push(
                            Commitment {
                                key: accounts.epoch_gauge_vote.key,
                                gauge_vote: accounts.gauge_vote.key,
                                gauge: accounts.gauge.key,
                                gauge_voter: accounts.gauge_voter.key,
                                voting_epoch: accounts.epoch_gauge_voter.data.voting_epoch,
                                vote: after.epoch_gauge_vote.data,
                            },
                        ),
                        ..self
                    },
                    Some(event),
                ),
            ),
        }
    }

    /// What committing the vote at `keys` does, for the one who asks as the
    /// vote delegate of the escrow: the ledger afterwards and the record of
    /// the commit, or the reason for refusing. It is refused where the
    /// ledger lacks one of the records, where the epoch gauge vote has no
    /// address or exists already, and where the gauge program refuses it.
    pub open spec fn gauge_commit_vote_v2(
        self,
        keys: VoteKeys,
        epoch_gauge: Pubkey,
        epoch_gauge_voter: Pubkey,
        asking: Asking,
    ) -> Result<(LedgerView, Option<CommitGaugeVoteEvent>), LedgerError> {
        match self.commit_accounts(keys, epoch_gauge, epoch_gauge_voter, asking) {
            Err(error) => Err(error),
            Ok(accounts) => match accounts.spec_validate() {
                Err(code) => Err(LedgerError::Program(code)),
                Ok(()) => self.with_commit(accounts),
            },
        }
    }

    /// What committing the vote at `keys` does, for the one who asks as the
    /// vote committer of the delegation at `gauge_delegation`: the ledger
    /// afterwards and the record of the commit, or the reason for refusing.
    /// It is refused where the ledger lacks one of the records, where the
    /// epoch gauge vote has no address or exists already, and where the
    /// gauge program refuses it.
    pub open spec fn delegated_gauge_commit_vote(
        self,
        keys: VoteKeys,
        epoch_gauge: Pubkey,
        epoch_gauge_voter: Pubkey,
        gauge_delegation: Pubkey,
        asking: Asking,
    ) -> Result<(LedgerView, Option<CommitGaugeVoteEvent>), LedgerError> {
        match get(self.gauge_delegations, gauge_delegation) {
            None => Err(LedgerError::AccountNotFound),
            Some(gauge_delegation) => match self.commit_accounts(
                keys,
                epoch_gauge,
                epoch_gauge_voter,
                asking,
            ) {
                Err(error) => Err(error),
                Ok(common) => match (DelegatedGaugeCommitVote {
                    common,
                    gauge_delegation,
                }).spec_validate() {
                    Err(code) => Err(LedgerError::Program(code)),
                    Ok(()) => self.with_commit(common),
                },
            },
        }
    }

    /// What reverting the vote at `keys` does, for the one who asks as the
    /// vote committer of the delegation at `gauge_delegation`: the ledger
    /// afterwards, without the commitment, and the record of the revert, or
    /// the reason for refusing. It is refused where the ledger lacks the
    /// delegation, where the accounts are not all there, and where the gauge
    /// program refuses it.
    pub open spec fn delegated_gauge_revert_vote(
        self,
        keys: VoteKeys,
        epoch_gauge: Pubkey,
        epoch_gauge_voter: Pubkey,
        gauge_delegation: Pubkey,
        asking: Asking,
    ) -> Result<(LedgerView, RevertGaugeVoteEvent), LedgerError> {
        match get(self.gauge_delegations, gauge_delegation) {
            None => Err(LedgerError::AccountNotFound),
            Some(gauge_delegation) => match self.revert_accounts(
                keys,
                epoch_gauge,
                epoch_gauge_voter,
                asking,
            ) {
                Err(error) => Err(error),
                Ok((common, at)) => match (DelegatedGaugeRevertVote {
                    common,
                    gauge_delegation,
                }).spec_validate() {
                    Err(code) => Err(LedgerError::Program(code)),
                    Ok(()) => self.with_revert(common, at),
                },
            },
        }
    }
}

impl Ledger {
    /// The gauge delegation at `key`, if the ledger holds one.
    pub fn gauge_delegation(&self, key: &Pubkey) -> (found: Option<GaugeDelegation>)
        requires
            self.wf(),
        ensures
            match get(self@.gauge_delegations, *key) {
                Some(account) => found == Some(account.data),
                None => found is None,
            },
    {
        crate::ledger::lookup(&self.gauge_delegations, key)
    }

    /// Creates the delegation of the voter at `gauge_voter`, and gives its
    /// address.
    pub fn create_gauge_delegation(&mut self, gauge_voter: &Pubkey, escrow: Account<Escrow>) -> (result:
        Result<Pubkey, LedgerError>)
        requires
            old(self).wf(),
        ensures
            final(self).wf(),
            match old(self)@.create_gauge_delegation(*gauge_voter, escrow) {
                Ok((after, key)) => result == Ok::<_, LedgerError>(key) && final(self)@ == after,
                Err(error) => result == Err::<Pubkey, _>(error) && final(self)@ == old(self)@,
            },
    {
        let voter_at = match find_account(&self.gauge_voters, gauge_voter) {
            Some(at) => at,
            None => return Err(LedgerError::AccountNotFound),
        };
        proof {
            lemma_get_at(self.gauge_voters@, voter_at as int);
        }
        let gauge_voter = self.gauge_voters[voter_at];
        let (key, _) = match GaugeDelegation::find_program_address(&gauge_voter.key) {
            Some(found) => found,
            None => return Err(LedgerError::NoAddress),
        };
        if find_account(&self.gauge_delegations, &key).is_some() {
            return Err(LedgerError::AccountAlreadyExists);
        }
        let mut accounts = CreateGaugeDelegation {
            gauge_delegation: Account { key, data: GaugeDelegation::default() },
            gauge_voter,
            escrow,
        };
        match accounts.validate() {
            Ok(()) => {},
            Err(code) => return Err(LedgerError::Program(code)),
        }
        match create_gauge_delegation::handler(&mut accounts) {
            Err(code) => Err(LedgerError::Program(code)),
            Ok(()) => {
                proof {
                    lemma_push_account(self.gauge_delegations@, accounts.gauge_delegation);
                }
                self.gauge_delegations.push(accounts.gauge_delegation);
                Ok(key)
            },
        }
    }

    /// Sets the vote setter of the delegation at `gauge_delegation` to
    /// `new_vote_setter`, for the one who asks as the vote delegate of the
    /// escrow.
    pub fn delegation_set_vote_setter(
        &mut self,
        gauge_delegation: &Pubkey,
        gauge_voter: &Pubkey,
        asking: Asking,
        new_vote_setter: Pubkey,
    ) -> (result: Result<(), LedgerError>)
        requires
            old(self).wf(),
        ensures
            final(self).wf(),
            match old(self)@.delegation_set_vote_setter(
                *gauge_delegation,
                *gauge_voter,
                asking,
                new_vote_setter,
            ) {
                Ok(after) => result == Ok::<(), LedgerError>(()) && final(self)@ == after,
                Err(error) => result == Err::<(), _>(error) && final(self)@ == old(self)@,
            },
    {
        let found = (
            find_account(&self.gauge_delegations, gauge_delegation),
            find_account(&self.gauge_voters, gauge_voter),
        );
        let (delegation_at, voter_at) = match found {
            (Some(delegation_at), Some(voter_at)) => (delegation_at, voter_at),
            _ => return Err(LedgerError::AccountNotFound),
        };
        proof {
            lemma_get_at(self.gauge_delegations@, delegation_at as int);
            lemma_get_at(self.gauge_voters@, voter_at as int);
        }
        let mut accounts = DelegationSetVoteSetter {
            gauge_delegation: self.gauge_delegations[delegation_at],
            gauge_voter: self.gauge_voters[voter_at],
            escrow: asking.escrow,
            escrow_vote_delegate: asking.vote_delegate,
            new_vote_setter,
        };
        match accounts.validate() {
            Ok(()) => {},
            Err(code) => return Err(LedgerError::Program(code)),
        }
        match delegation_set_vote_setter::handler(&mut accounts) {
            Err(code) => Err(LedgerError::Program(code)),
            Ok(()) => {
                proof {
                    lemma_put_account(self.gauge_delegations@, accounts.gauge_delegation);
                }
                self.gauge_delegations.set(delegation_at, accounts.gauge_delegation);
                Ok(())
            },
        }
    }

    /// Sets the vote committer of the delegation at `gauge_delegation` to
    /// `new_vote_committer`, for the one who asks as the vote delegate of
    /// the escrow.
    pub fn delegation_set_vote_committer(
        &mut self,
        gauge_delegation: &Pubkey,
        gauge_voter: &Pubkey,
        asking: Asking,
        new_vote_committer: Pubkey,
    ) -> (result: Result<(), LedgerError>)
        requires
            old(self).wf(),
        ensures
            final(self).wf(),
            match old(self)@.delegation_set_vote_committer(
                *gauge_delegation,
                *gauge_voter,
                asking,
                new_vote_committer,
            ) {
                Ok(after) => result == Ok::<(), LedgerError>(()) && final(self)@ == after,
                Err(error) => result == Err::<(), _>(error) && final(self)@ == old(self)@,
            },
    {
        let found = (
            find_account(&self.gauge_delegations, gauge_delegation),
            find_account(&self.gauge_voters, gauge_voter),
        );
        let (delegation_at, voter_at) = match found {
            (Some(delegation_at), Some(voter_at)) => (delegation_at, voter_at),
            _ => return Err(LedgerError::AccountNotFound),
        };
        proof {
            lemma_get_at(self.gauge_delegations@, delegation_at as int);
            lemma_get_at(self.gauge_voters@, voter_at as int);
        }
        let mut accounts = DelegationSetVoteCommitter {
            gauge_delegation: self.gauge_delegations[delegation_at],
            gauge_voter: self.gauge_voters[voter_at],
            escrow: asking.escrow,
            escrow_vote_delegate: asking.vote_delegate,
            new_vote_committer,
        };
        match accounts.validate() {
            Ok(()) => {},
            Err(code) => return Err(LedgerError::Program(code)),
        }
        match delegation_set_vote_committer::handler(&mut accounts) {
            Err(code) => Err(LedgerError::Program(code)),
            Ok(()) => {
                proof {
                    lemma_put_account(self.gauge_delegations@, accounts.gauge_delegation);
                }
                self.gauge_delegations.set(delegation_at, accounts.gauge_delegation);
                Ok(())
            },
        }
    }

    /// Sets the weight of the vote at `keys` to `weight`, for the one who
    /// asks as the vote setter of the delegation at `gauge_delegation`.
    pub fn delegated_gauge_set_vote(
        &mut self,
        keys: &VoteKeys,
        gauge_delegation: &Pubkey,
        asking: Asking,
        weight: u32,
    ) -> (result: Result<Option<SetGaugeVoteEvent>, LedgerError>)
        requires
            old(self).wf(),
        ensures
            final(self).wf(),
            match old(self)@.delegated_gauge_set_vote(*keys, *gauge_delegation, asking, weight) {
                Ok((after, event)) => result == Ok::<_, LedgerError>(event) && final(self)@
                    == after,
                Err(error) => result == Err::<Option<SetGaugeVoteEvent>, _>(error) && final(self)@
                    == old(self)@,
            },
    {
        let found = (
            find_account(&self.gaugemeisters, &keys.gaugemeister),
            find_account(&self.gauges, &keys.gauge),
            find_account(&self.gauge_voters, &keys.gauge_voter),
            find_account(&self.gauge_votes, &keys.gauge_vote),
            find_account(&self.gauge_delegations, gauge_delegation),
        );
        let (gaugemeister_at, gauge_at, voter_at, vote_at, delegation_at) = match found {
            (
                Some(gaugemeister_at),
                Some(gauge_at),
                Some(voter_at),
                Some(vote_at),
                Some(delegation_at),
            ) => (gaugemeister_at, gauge_at, voter_at, vote_at, delegation_at),
            _ => return Err(LedgerError::AccountNotFound),
        };
        proof {
            lemma_get_at(self.gaugemeisters@, gaugemeister_at as int);
            lemma_get_at(self.gauges@, gauge_at as int);
            lemma_get_at(self.gauge_voters@, voter_at as int);
            lemma_get_at(self.gauge_votes@, vote_at as int);
            lemma_get_at(self.gauge_delegations@, delegation_at as int);
        }
        let mut accounts = DelegatedGaugeSetVote {
            common: GaugeSetVote {
                gaugemeister: self.gaugemeisters[gaugemeister_at],
                gauge: self.gauges[gauge_at],
                gauge_voter: self.gauge_voters[voter_at],
                gauge_vote: self.gauge_votes[vote_at],
                escrow: asking.escrow,
                vote_delegate: asking.vote_delegate,
            },
            gauge_delegation: self.gauge_delegations[delegation_at],
        };
        match accounts.validate() {
            Ok(()) => {},
            Err(code) => return Err(LedgerError::Program(code)),
        }
        match delegated_gauge_set_vote::handler(&mut accounts, weight) {
            Err(code) => Err(LedgerError::Program(code)),
            Ok(event) => {
                proof {
                    lemma_set_vote_conserves_weights(
                        old(self)@,
                        accounts.common.gauge_voter,
                        accounts.common.gauge_vote,
                    );
                    lemma_set_vote_bounds_power(
                        old(self)@,
                        accounts.common.gauge_voter,
                        accounts.common.gauge_vote,
                    );
                }
                self.gauge_voters.set(voter_at, accounts.common.gauge_voter);
                self.gauge_votes.set(vote_at, accounts.common.gauge_vote);
                Ok(event)
            },
        }
    }

    /// Commits the vote at `keys` to the epoch gauge at `epoch_gauge`,
    /// against the snapshot at `epoch_gauge_voter`, for the one who asks as
    /// the vote delegate of the escrow.
    pub fn gauge_commit_vote_v2(
        &mut self,
        keys: &VoteKeys,
        epoch_gauge: &Pubkey,
        epoch_gauge_voter: &Pubkey,
        asking: Asking,
    ) -> (result: Result<Option<CommitGaugeVoteEvent>, LedgerError>)
        requires
            old(self).wf(),
        ensures
            final(self).wf(),
            match old(self)@.gauge_commit_vote_v2(*keys, *epoch_gauge, *epoch_gauge_voter, asking) {
                Ok((after, event)) => result == Ok::<_, LedgerError>(event) && final(self)@
                    == after,
                Err(error) => result == Err::<Option<CommitGaugeVoteEvent>, _>(error)
                    && final(self)@ == old(self)@,
            },
    {
        let (mut accounts, epoch_gauge_at, snapshot_at) = match self.find_commit_accounts(
            keys,
            epoch_gauge,
            epoch_gauge_voter,
            asking,
        ) {
            Ok(found) => found,
            Err(error) => return Err(error),
        };
        match accounts.validate() {
            Ok(()) => {},
            Err(code) => return Err(LedgerError::Program(code)),
        }
        match gauge_commit_vote_v2::handler(&mut accounts) {
            Err(code) => Err(LedgerError::Program(code)),
            Ok(None) => Ok(None),
            Ok(Some(event)) => {
                self.record_commit(&accounts, epoch_gauge_at, snapshot_at);
                Ok(Some(event))
            },
        }
    }

    /// Commits the vote at `keys` to the epoch gauge at `epoch_gauge`,
    /// against the snapshot at `epoch_gauge_voter`, for the one who asks as
    /// the vote committer of the delegation at `gauge_delegation`.
    pub fn delegated_gauge_commit_vote(
        &mut self,
        keys: &VoteKeys,
        epoch_gauge: &Pubkey,
        epoch_gauge_voter: &Pubkey,
        gauge_delegation: &Pubkey,
        asking: Asking,
    ) -> (result: Result<Option<CommitGaugeVoteEvent>, LedgerError>)
        requires
            old(self).wf(),
        ensures
            final(self).wf(),
            match old(self)@.delegated_gauge_commit_vote(
                *keys,
                *epoch_gauge,
                *epoch_gauge_voter,
                *gauge_delegation,
                asking,
            ) {
                Ok((after, event)) => result == Ok::<_, LedgerError>(event) && final(self)@
                    == after,
                Err(error) => result == Err::<Option<CommitGaugeVoteEvent>, _>(error)
                    && final(self)@ == old(self)@,
            },
    {
        let delegation_at = match find_account(&self.gauge_delegations, gauge_delegation) {
            Some(at) => at,
            None => return Err(LedgerError::AccountNotFound),
        };
        proof {
            lemma_get_at(self.gauge_delegations@, delegation_at as int);
        }
        let (common, epoch_gauge_at, snapshot_at) = match self.find_commit_accounts(
            keys,
            epoch_gauge,
            epoch_gauge_voter,
            asking,
        ) {
            Ok(found) => found,
            Err(error) => return Err(error),
        };
        let mut accounts = DelegatedGaugeCommitVote {
            common,
            gauge_delegation: self.gauge_delegations[delegation_at],
        };
        match accounts.validate() {
            Ok(()) => {},
            Err(code) => return Err(LedgerError::Program(code)),
        }
        match delegated_gauge_commit_vote::handler(&mut accounts) {
            Err(code) => Err(LedgerError::Program(code)),
            Ok(None) => Ok(None),
            Ok(Some(event)) => {
                self.record_commit(&accounts.common, epoch_gauge_at, snapshot_at);
                Ok(Some(event))
            },
        }
    }

    /// Finds the accounts for committing the vote at `keys` on behalf of
    /// the voter, and where the epoch gauge and the snapshot stand.
    fn find_commit_accounts(
        &self,
        keys: &VoteKeys,
        epoch_gauge: &Pubkey,
        epoch_gauge_voter: &Pubkey,
        asking: Asking,
    ) -> (result: Result<(GaugeCommitVoteV2, usize, usize), LedgerError>)
        requires
            self.wf(),
        ensures
            match self@.commit_accounts(*keys, *epoch_gauge, *epoch_gauge_voter, asking) {
                Ok(accounts) => result matches Ok((found, epoch_gauge_at, snapshot_at)) && {
                    &&& found == accounts
                    &&& epoch_gauge_at < self@.epoch_gauges.len()
                    &&& snapshot_at < self@.epoch_gauge_voters.len()
                    &&& self@.epoch_gauges[epoch_gauge_at as int] == accounts.epoch_gauge
                    &&& self@.epoch_gauge_voters[snapshot_at as int] == accounts.epoch_gauge_voter
                    &&& get(self@.gauge_votes, accounts.gauge_vote.key) == Some(accounts.gauge_vote)
                    &&& get(self@.epoch_gauges, accounts.epoch_gauge.key) == Some(
                        accounts.epoch_gauge,
                    )
                    &&& get(self@.epoch_gauge_voters, accounts.epoch_gauge_voter.key) == Some(
                        accounts.epoch_gauge_voter,
                    )
                    &&& get(self@.epoch_gauges, *epoch_gauge) == Some(accounts.epoch_gauge)
                    &&& get(self@.epoch_gauge_voters, *epoch_gauge_voter) == Some(
                        accounts.epoch_gauge_voter,
                    )
                },
                Err(error) => result == Err::<(GaugeCommitVoteV2, usize, usize), _>(error),
            },
    {
        let found = (
            find_account(&self.gaugemeisters, &keys.gaugemeister),
            find_account(&self.gauges, &keys.gauge),
            find_account(&self.gauge_voters, &keys.gauge_voter),
            find_account(&self.gauge_votes, &keys.gauge_vote),
            find_account(&self.epoch_gauges, epoch_gauge),
            find_account(&self.epoch_gauge_voters, epoch_gauge_voter),
        );
        let (gaugemeister_at, gauge_at, voter_at, vote_at, epoch_gauge_at, snapshot_at) =
            match found {
            (
                Some(gaugemeister_at),
                Some(gauge_at),
                Some(voter_at),
                Some(vote_at),
                Some(epoch_gauge_at),
                Some(snapshot_at),
            ) => (gaugemeister_at, gauge_at, voter_at, vote_at, epoch_gauge_at, snapshot_at),
            _ => return Err(LedgerError::AccountNotFound),
        };
        proof {
            lemma_get_at(self.gaugemeisters@, gaugemeister_at as int);
            lemma_get_at(self.gauges@, gauge_at as int);
            lemma_get_at(self.gauge_voters@, voter_at as int);
            lemma_get_at(self.gauge_votes@, vote_at as int);
            lemma_get_at(self.epoch_gauges@, epoch_gauge_at as int);
            lemma_get_at(self.epoch_gauge_voters@, snapshot_at as int);
        }
        let gauge_vote = self.gauge_votes[vote_at];
        let snapshot = self.epoch_gauge_voters[snapshot_at];
        let (key, _) = match EpochGaugeVote::find_program_address(
            &gauge_vote.key,
            snapshot.data.voting_epoch,
        ) {
            Some(found) => found,
            None => return Err(LedgerError::NoAddress),
        };
        if find_commitment_at(&self.commitments, &key).is_some() {
            return Err(LedgerError::AccountAlreadyExists);
        }
        Ok(
            (
                GaugeCommitVoteV2 {
                    gaugemeister: self.gaugemeisters[gaugemeister_at],
                    gauge: self.gauges[gauge_at],
                    gauge_voter: self.gauge_voters[voter_at],
                    gauge_vote,
                    epoch_gauge: self.epoch_gauges[epoch_gauge_at],
                    epoch_gauge_voter: snapshot,
                    epoch_gauge_vote: Account { key, data: EpochGaugeVote { allocated_power: 0 } },
                    escrow: asking.escrow,
                    vote_delegate: asking.vote_delegate,
                },
                epoch_gauge_at,
                snapshot_at,
            ),
        )
    }

    /// Enters the commit that `committed` holds into the ledger.
    fn record_commit(
        &mut self,
        committed: &GaugeCommitVoteV2,
        epoch_gauge_at: usize,
        snapshot_at: usize,
    )
        requires
            old(self).wf(),
            epoch_gauge_at < old(self)@.epoch_gauges.len(),
            snapshot_at < old(self)@.epoch_gauge_voters.len(),
            old(self)@.epoch_gauges[epoch_gauge_at as int].key == committed.epoch_gauge.key,
            old(self)@.epoch_gauge_voters[snapshot_at as int].key == committed.epoch_gauge_voter.key,
            exists|before: GaugeCommitVoteV2|
                {
                    &&& #[trigger] before.spec_commit_vote() matches Ok((after, Some(_))) && after
                        == *committed
                    &&& before.spec_common().spec_validate() is Ok
                    &&& get(old(self)@.gauge_voters, before.gauge_voter.key) == Some(
                        before.gauge_voter,
                    )
                    &&& before.epoch_gauge == old(self)@.epoch_gauges[epoch_gauge_at as int]
                    &&& before.epoch_gauge_voter
                        == old(self)@.epoch_gauge_voters[snapshot_at as int]
                    &&& get(old(self)@.gauge_votes, before.gauge_vote.key)
                        == Some(before.gauge_vote)
                    &&& !has_commitment_at(old(self)@.commitments, before.epoch_gauge_vote.key)
                    &&& crate::address::address_of(
                        EpochGaugeVote::spec_find_program_address(
                            before.gauge_vote.key,
                            before.epoch_gauge_voter.data.voting_epoch,
                        ),
                    ) == Some(before.epoch_gauge_vote.key)
                },
        ensures
            final(self).wf(),
            final(self)@ == (LedgerView {
                epoch_gauges: put(old(self)@.epoch_gauges, committed.epoch_gauge),
                epoch_gauge_voters: put(old(self)@.epoch_gauge_voters, committed.epoch_gauge_voter),
                commitments: old(self)@.commitments.push(
                    Commitment {
                        key: committed.epoch_gauge_vote.key,
                        gauge_vote: committed.gauge_vote.key,
                        gauge: committed.gauge.key,
                        gauge_voter: committed.gauge_voter.key,
                        voting_epoch: committed.epoch_gauge_voter.data.voting_epoch,
                        vote: committed.epoch_gauge_vote.data,
                    },
                ),
                ..old(self)@
            }),
    {
        let commitment = Commitment {
            key: committed.epoch_gauge_vote.key,
            gauge_vote: committed.gauge_vote.key,
            gauge: committed.gauge.key,
            gauge_voter: committed.gauge_voter.key,
            voting_epoch: committed.epoch_gauge_voter.data.voting_epoch,
            vote: committed.epoch_gauge_vote.data,
        };
        proof {
            let before = choose|before: GaugeCommitVoteV2|
                {
                    &&& #[trigger] before.spec_commit_vote() matches Ok((after, Some(_))) && after
                        == *committed
                    &&& before.spec_common().spec_validate() is Ok
                    &&& get(old(self)@.gauge_voters, before.gauge_voter.key) == Some(
                        before.gauge_voter,
                    )
                    &&& before.epoch_gauge == old(self)@.epoch_gauges[epoch_gauge_at as int]
                    &&& before.epoch_gauge_voter
                        == old(self)@.epoch_gauge_voters[snapshot_at as int]
                    &&& get(old(self)@.gauge_votes, before.gauge_vote.key)
                        == Some(before.gauge_vote)
                    &&& !has_commitment_at(old(self)@.commitments, before.epoch_gauge_vote.key)
                    &&& crate::address::address_of(
                        EpochGaugeVote::spec_find_program_address(
                            before.gauge_vote.key,
                            before.epoch_gauge_voter.data.voting_epoch,
                        ),
                    ) == Some(before.epoch_gauge_vote.key)
                };
            lemma_get_at(self.epoch_gauges@, epoch_gauge_at as int);
            lemma_get_at(self.epoch_gauge_voters@, snapshot_at as int);
            lemma_commit_conserves_power(
                old(self)@,
                committed.epoch_gauge,
                committed.epoch_gauge_voter,
                commitment,
            );
            lemma_share_is_rounded_down(
                before.epoch_gauge_voter.data.voting_power,
                before.gauge_vote.data.weight,
                before.gauge_voter.data.total_weight,
            );
            lemma_commit_bounds_power(
                old(self)@,
                committed.epoch_gauge,
                committed.epoch_gauge_voter,
                commitment,
            );
        }
        self.epoch_gauges.set(epoch_gauge_at, committed.epoch_gauge);
        self.epoch_gauge_voters.set(snapshot_at, committed.epoch_gauge_voter);
        self.commitments.push(commitment);
    }

    /// Reverts the vote at `keys` for the epoch that is being voted on,
    /// from the epoch gauge at `epoch_gauge` and the snapshot at
    /// `epoch_gauge_voter`, for the one who asks as the vote committer of
    /// the delegation at `gauge_delegation`.
    pub fn delegated_gauge_revert_vote(
        &mut self,
        keys: &VoteKeys,
        epoch_gauge: &Pubkey,
        epoch_gauge_voter: &Pubkey,
        gauge_delegation: &Pubkey,
        asking: Asking,
    ) -> (result: Result<RevertGaugeVoteEvent, LedgerError>)
        requires
            old(self).wf(),
        ensures
            final(self).wf(),
            match old(self)@.delegated_gauge_revert_vote(
                *keys,
                *epoch_gauge,
                *epoch_gauge_voter,
                *gauge_delegation,
                asking,
            ) {
                Ok((after, event)) => result == Ok::<_, LedgerError>(event) && final(self)@
                    == after,
                Err(error) => result == Err::<RevertGaugeVoteEvent, _>(error) && final(self)@
                    == old(self)@,
            },
    {
        let delegation_at = match find_account(&self.gauge_delegations, gauge_delegation) {
            Some(at) => at,
            None => return Err(LedgerError::AccountNotFound),
        };
        let found = (
            find_account(&self.gaugemeisters, &keys.gaugemeister),
            find_account(&self.gauges, &keys.gauge),
            find_account(&self.gauge_voters, &keys.gauge_voter),
            find_account(&self.gauge_votes, &keys.gauge_vote),
            find_account(&self.epoch_gauges, epoch_gauge),
            find_account(&self.epoch_gauge_voters, epoch_gauge_voter),
        );
        let (gaugemeister_at, gauge_at, voter_at, vote_at, epoch_gauge_at, snapshot_at) =
            match found {
            (
                Some(gaugemeister_at),
                Some(gauge_at),
                Some(voter_at),
                Some(vote_at),
                Some(epoch_gauge_at),
                Some(snapshot_at),
            ) => (gaugemeister_at, gauge_at, voter_at, vote_at, epoch_gauge_at, snapshot_at),
            _ => return Err(LedgerError::AccountNotFound),
        };
        proof {
            lemma_get_at(self.gauge_delegations@, delegation_at as int);
            lemma_get_at(self.gaugemeisters@, gaugemeister_at as int);
            lemma_get_at(self.gauges@, gauge_at as int);
            lemma_get_at(self.gauge_voters@, voter_at as int);
            lemma_get_at(self.gauge_votes@, vote_at as int);
            lemma_get_at(self.epoch_gauges@, epoch_gauge_at as int);
            lemma_get_at(self.epoch_gauge_voters@, snapshot_at as int);
        }
        let gaugemeister = self.gaugemeisters[gaugemeister_at];
        let gauge_vote = self.gauge_votes[vote_at];
        let voting_epoch = match gaugemeister.data.voting_epoch() {
            Ok(voting_epoch) => voting_epoch,
            Err(code) => return Err(LedgerError::Program(code)),
        };
        let at = match find_commitment(&self.commitments, &gauge_vote.key, voting_epoch) {
            Some(at) => at,
            None => return Err(LedgerError::AccountNotFound),
        };
        proof {
            lemma_commitment_at(self@, at as int);
        }
        let commitment = self.commitments[at];
        let mut accounts = DelegatedGaugeRevertVote {
            common: GaugeRevertVote {
                gaugemeister,
                gauge: self.gauges[gauge_at],
                gauge_voter: self.gauge_voters[voter_at],
                gauge_vote,
                epoch_gauge: self.epoch_gauges[epoch_gauge_at],
                epoch_gauge_voter: self.epoch_gauge_voters[snapshot_at],
                escrow: asking.escrow,
                vote_delegate: asking.vote_delegate,
                epoch_gauge_vote: Account { key: commitment.key, data: commitment.vote },
            },
            gauge_delegation: self.gauge_delegations[delegation_at],
        };
        match accounts.validate() {
            Ok(()) => {},
            Err(code) => return Err(LedgerError::Program(code)),
        }
        match delegated_gauge_revert_vote::handler(&mut accounts) {
            Err(code) => Err(LedgerError::Program(code)),
            Ok(event) => {
                proof {
                    lemma_revert_conserves_power(
                        old(self)@,
                        accounts.common.epoch_gauge,
                        accounts.common.epoch_gauge_voter,
                        at as int,
                    );
                    lemma_revert_bounds_power(
                        old(self)@,
                        accounts.common.epoch_gauge,
                        accounts.common.epoch_gauge_voter,
                        at as int,
                    );
                }
                self.epoch_gauges.set(epoch_gauge_at, accounts.common.epoch_gauge);
                self.epoch_gauge_voters.set(snapshot_at, accounts.common.epoch_gauge_voter);
                self.commitments.remove(at);
                Ok(event)
            },
        }
    }
}

} // verus!
