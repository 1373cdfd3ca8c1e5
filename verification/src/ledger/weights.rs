//! Voters, votes and their weights in the ledger.

use vstd::prelude::*;
use crate::account::Account;
use crate::gauge;
use crate::instructions::create_gauge_vote::{CreateGaugeVote, GaugeVoteCreateEvent};
use crate::instructions::create_gauge_voter::CreateGaugeVoter;
use crate::instructions::gauge_set_vote::{GaugeSetVote, SetGaugeVoteEvent};
use crate::ledger::bounds::{lemma_new_vote_bounds_power, lemma_set_vote_bounds_power};
use crate::ledger::view::{
    get,
    has_key,
    index_of,
    lemma_get_at,
    lemma_push_account,
    lemma_put_account,
    put,
    total_weight,
    weight_for,
    LedgerView,
};
use crate::ledger::{find_account, Ledger, LedgerError};
use crate::locker::Escrow;
use crate::pubkey::Pubkey;
use crate::state::{GaugeVote, GaugeVoter};
use crate::sums::{lemma_sum_push, lemma_sum_update, lemma_sum_zero};

verus! {

/// The addresses of a vote and of the records that it belongs to.
#[derive(Clone, Copy, Debug, PartialEq, Eq)]
pub struct VoteKeys {
    /// The gaugemeister.
    pub gaugemeister: Pubkey,
    /// The gauge.
    pub gauge: Pubkey,
    /// The gauge voter.
    pub gauge_voter: Pubkey,
    /// The gauge vote.
    pub gauge_vote: Pubkey,
}

impl LedgerView {
    /// The accounts for setting the weight of the vote at `keys`, where the
    /// ledger holds them all.
    pub open spec fn set_vote_accounts(self, keys: VoteKeys, asking: Asking) -> Option<
        GaugeSetVote,
    > {
        match (
            get(self.gaugemeisters, keys.gaugemeister),
            get(self.gauges, keys.gauge),
            get(self.gauge_voters, keys.gauge_voter),
            get(self.gauge_votes, keys.gauge_vote),
        ) {
            (Some(gaugemeister), Some(gauge), Some(gauge_voter), Some(gauge_vote)) => Some(
                GaugeSetVote {
                    gaugemeister,
                    gauge,
                    gauge_voter,
                    gauge_vote,
                    escrow: asking.escrow,
                    vote_delegate: asking.vote_delegate,
                },
            ),
            _ => None,
        }
    }

    /// The ledger with the voter and the vote of `accounts` in the place of
    /// those at their addresses.
    pub open spec fn with_vote(self, accounts: GaugeSetVote) -> LedgerView {
        LedgerView {
            gauge_voters: put(self.gauge_voters, accounts.gauge_voter),
            gauge_votes: put(self.gauge_votes, accounts.gauge_vote),
            ..self
        }
    }

    /// What setting the weight of the vote at `keys` to `weight` does: the
    /// ledger afterwards and the record of the change, or the reason for
    /// refusing. It is refused where the ledger lacks one of the records,
    /// and where the gauge program refuses it.
    pub open spec fn gauge_set_vote(self, keys: VoteKeys, asking: Asking, weight: u32) -> Result<
        (LedgerView, Option<SetGaugeVoteEvent>),
        LedgerError,
    > {
        match self.set_vote_accounts(keys, asking) {
            None => Err(LedgerError::AccountNotFound),
            Some(accounts) => match accounts.spec_validate() {
                Err(code) => Err(LedgerError::Program(code)),
                Ok(()) => match accounts.spec_set_vote(weight) {
                    Err(code) => Err(LedgerError::Program(code)),
                    Ok((after, event)) => Ok((self.with_vote(after), event)),
                },
            },
        }
    }
}

/// The one who asks to act for a voter, with the escrow of the voter.
#[derive(Clone, Copy, Debug, PartialEq, Eq)]
pub struct Asking {
    /// The escrow of the voter.
    pub escrow: Account<Escrow>,
    /// The account that asks.
    pub vote_delegate: Pubkey,
}

impl LedgerView {
    /// What creating the voter of `escrow` under the gaugemeister at
    /// `gaugemeister` does: the ledger afterwards and the address of the
    /// voter, or the reason for refusing. It is refused where the ledger
    /// lacks the gaugemeister, where the voter has no address or exists
    /// already, and where the gauge program refuses it.
    pub open spec fn create_gauge_voter(self, gaugemeister: Pubkey, escrow: Account<Escrow>)
        -> Result<(LedgerView, Pubkey), LedgerError> {
        match get(self.gaugemeisters, gaugemeister) {
            None => Err(LedgerError::AccountNotFound),
            Some(gaugemeister) => match GaugeVoter::spec_find_program_address(
                gaugemeister.key,
                escrow.key,
            ) {
                None => Err(LedgerError::NoAddress),
                Some((key, _)) => if has_key(self.gauge_voters, key) {
                    Err(LedgerError::AccountAlreadyExists)
                } else {
                    let accounts = CreateGaugeVoter {
                        gauge_voter: Account { key, data: arbitrary() },
                        gaugemeister,
                        escrow,
                    };
                    match accounts.spec_validate() {
                        Err(code) => Err(LedgerError::Program(code)),
                        Ok(()) => Ok(
                            (
                                LedgerView {
                                    gauge_voters: self.gauge_voters.push(
                                        Account { key, data: accounts.created() },
                                    ),
                                    ..self
                                },
                                key,
                            ),
                        ),
                    }
                },
            },
        }
    }

    /// What creating the vote of the voter at `gauge_voter` for the gauge at
    /// `gauge` does: the ledger afterwards, with the address of the vote and
    /// the record of the creation, or the reason for refusing. It is refused
    /// where the ledger lacks the voter or the gauge, where the vote has no
    /// address or exists already, and where the gauge program refuses it.
    pub open spec fn create_gauge_vote(self, gauge_voter: Pubkey, gauge: Pubkey) -> Result<
        (LedgerView, (Pubkey, GaugeVoteCreateEvent)),
        LedgerError,
    > {
        match (get(self.gauge_voters, gauge_voter), get(self.gauges, gauge)) {
            (Some(gauge_voter), Some(gauge)) => match GaugeVote::spec_find_program_address(
                gauge_voter.key,
                gauge.key,
            ) {
                None => Err(LedgerError::NoAddress),
                Some((key, _)) => if has_key(self.gauge_votes, key) {
                    Err(LedgerError::AccountAlreadyExists)
                } else {
                    let accounts = CreateGaugeVote {
                        gauge_vote: Account { key, data: arbitrary() },
                        gauge_voter,
                        gauge,
                    };
                    match accounts.spec_validate() {
                        Err(code) => Err(LedgerError::Program(code)),
                        Ok(()) => Ok(
                            (
                                LedgerView {
                                    gauge_votes: self.gauge_votes.push(
                                        Account { key, data: accounts.created() },
                                    ),
                                    ..self
                                },
                                (key, accounts.creation_event()),
                            ),
                        ),
                    }
                },
            },
            _ => Err(LedgerError::AccountNotFound),
        }
    }
}

/// A new voter without weight, at a new address, keeps the ledger as it
/// should be.
pub proof fn lemma_new_voter_conserves_weights(ledger: LedgerView, voter: Account<GaugeVoter>)
    requires
        ledger.wf(),
        !has_key(ledger.gauge_voters, voter.key),
        voter.data.total_weight == 0,
    ensures
        (LedgerView { gauge_voters: ledger.gauge_voters.push(voter), ..ledger }).records_in_order(),
{
    let after = LedgerView { gauge_voters: ledger.gauge_voters.push(voter), ..ledger };
    lemma_push_account(ledger.gauge_voters, voter);
    assert(after.weights_conserved()) by {
        assert forall|i: int| 0 <= i < after.gauge_voters.len() implies (
        #[trigger] after.gauge_voters[i]).data.total_weight == total_weight(
            after.gauge_votes,
            after.gauge_voters[i].key,
        ) by {
            if i == ledger.gauge_voters.len() {
                assert forall|j: int| 0 <= j < ledger.gauge_votes.len() implies weight_for(
                    voter.key,
                )(#[trigger] ledger.gauge_votes[j]) == 0 by {
                    assert(has_key(ledger.gauge_voters, ledger.gauge_votes[j].data.gauge_voter));
                }
                lemma_sum_zero(ledger.gauge_votes, weight_for(voter.key));
            } else {
                assert(after.gauge_voters[i] == ledger.gauge_voters[i]);
            }
        }
    }
    assert(after.votes_have_voters()) by {
        assert forall|i: int| 0 <= i < after.gauge_votes.len() implies has_key(
            after.gauge_voters,
            (#[trigger] after.gauge_votes[i]).data.gauge_voter,
        ) by {
            assert(has_key(ledger.gauge_voters, ledger.gauge_votes[i].data.gauge_voter));
        }
    }
}

/// A new vote without weight, at a new address, of a voter that the ledger
/// holds, keeps the ledger as it should be.
pub proof fn lemma_new_vote_conserves_weights(ledger: LedgerView, vote: Account<GaugeVote>)
    requires
        ledger.wf(),
        !has_key(ledger.gauge_votes, vote.key),
        has_key(ledger.gauge_voters, vote.data.gauge_voter),
        vote.data.weight == 0,
    ensures
        (LedgerView { gauge_votes: ledger.gauge_votes.push(vote), ..ledger }).records_in_order(),
{
    let after = LedgerView { gauge_votes: ledger.gauge_votes.push(vote), ..ledger };
    lemma_push_account(ledger.gauge_votes, vote);
    assert(after.weights_conserved()) by {
        assert forall|i: int| 0 <= i < after.gauge_voters.len() implies (
        #[trigger] after.gauge_voters[i]).data.total_weight == total_weight(
            after.gauge_votes,
            after.gauge_voters[i].key,
        ) by {
            lemma_sum_push(ledger.gauge_votes, vote, weight_for(after.gauge_voters[i].key));
        }
    }
    assert(after.votes_have_voters()) by {
        assert forall|i: int| 0 <= i < after.gauge_votes.len() implies has_key(
            after.gauge_voters,
            (#[trigger] after.gauge_votes[i]).data.gauge_voter,
        ) by {
            if i < ledger.gauge_votes.len() {
                assert(after.gauge_votes[i] == ledger.gauge_votes[i]);
            }
        }
    }
    assert(after.commitments_have_votes()) by {
        assert forall|i: int| 0 <= i < after.commitments.len() implies {
            let commitment = #[trigger] after.commitments[i];
            get(after.gauge_votes, commitment.gauge_vote) matches Some(found)
                && found.data.gauge == commitment.gauge && found.data.gauge_voter
                == commitment.gauge_voter
        } by {
            let commitment = ledger.commitments[i];
            assert(get(ledger.gauge_votes, commitment.gauge_vote) is Some);
        }
    }
}

/// A change of a vote's weight that moves the voter's total with it keeps
/// every voter's total the sum of the weights of the voter's votes.
pub proof fn lemma_set_vote_conserves_weights(
    ledger: LedgerView,
    voter: Account<GaugeVoter>,
    vote: Account<GaugeVote>,
)
    requires
        ledger.wf(),
        get(ledger.gauge_voters, voter.key) matches Some(before) && {
            &&& voter.data.gaugemeister == before.data.gaugemeister
            &&& voter.data.escrow == before.data.escrow
            &&& voter.data.owner == before.data.owner
            &&& voter.data.weight_change_seqno >= before.data.weight_change_seqno
        },
        get(ledger.gauge_votes, vote.key) matches Some(before) && {
            &&& vote.data.gauge_voter == before.data.gauge_voter
            &&& vote.data.gauge == before.data.gauge
            &&& vote.data.gauge_voter == voter.key
            &&& voter.data.total_weight - get(ledger.gauge_voters, voter.key).unwrap().data.total_weight
                == vote.data.weight - before.data.weight
        },
    ensures
        (LedgerView {
            gauge_voters: put(ledger.gauge_voters, voter),
            gauge_votes: put(ledger.gauge_votes, vote),
            ..ledger
        }).records_in_order(),
{
    let after = LedgerView {
        gauge_voters: put(ledger.gauge_voters, voter),
        gauge_votes: put(ledger.gauge_votes, vote),
        ..ledger
    };
    let voter_at = index_of(ledger.gauge_voters, voter.key);
    let vote_at = index_of(ledger.gauge_votes, vote.key);
    lemma_put_account(ledger.gauge_voters, voter);
    lemma_put_account(ledger.gauge_votes, vote);
    assert(after.weights_conserved()) by {
        assert forall|i: int| 0 <= i < after.gauge_voters.len() implies (
        #[trigger] after.gauge_voters[i]).data.total_weight == total_weight(
            after.gauge_votes,
            after.gauge_voters[i].key,
        ) by {
            let key = after.gauge_voters[i].key;
            lemma_sum_update(ledger.gauge_votes, vote_at, vote, weight_for(key));
            assert(ledger.gauge_voters[i].data.total_weight == total_weight(
                ledger.gauge_votes,
                ledger.gauge_voters[i].key,
            ));
            if i != voter_at {
                lemma_get_at(ledger.gauge_voters, i);
                assert(key != voter.key);
            }
        }
    }
    assert(after.votes_have_voters()) by {
        assert forall|i: int| 0 <= i < after.gauge_votes.len() implies has_key(
            after.gauge_voters,
            (#[trigger] after.gauge_votes[i]).data.gauge_voter,
        ) by {
            assert(has_key(ledger.gauge_voters, ledger.gauge_votes[i].data.gauge_voter));
        }
    }
    assert(after.commitments_have_votes()) by {
        assert forall|i: int| 0 <= i < after.commitments.len() implies {
            let commitment = #[trigger] after.commitments[i];
            get(after.gauge_votes, commitment.gauge_vote) matches Some(found)
                && found.data.gauge == commitment.gauge && found.data.gauge_voter
                == commitment.gauge_voter
        } by {
            let commitment = ledger.commitments[i];
            assert(get(ledger.gauge_votes, commitment.gauge_vote) is Some);
        }
    }
}

impl Ledger {
    /// Creates the voter of `escrow` under the gaugemeister at
    /// `gaugemeister`, and gives the voter's address.
    pub fn create_gauge_voter(&mut self, gaugemeister: &Pubkey, escrow: Account<Escrow>) -> (result:
        Result<Pubkey, LedgerError>)
        requires
            old(self).wf(),
        ensures
            final(self).wf(),
            match old(self)@.create_gauge_voter(*gaugemeister, escrow) {
                Ok((after, key)) => result == Ok::<_, LedgerError>(key) && final(self)@ == after,
                Err(error) => result == Err::<Pubkey, _>(error) && final(self)@ == old(self)@,
            },
    {
        let gaugemeister_at = match find_account(&self.gaugemeisters, gaugemeister) {
            Some(at) => at,
            None => return Err(LedgerError::AccountNotFound),
        };
        proof {
            lemma_get_at(self.gaugemeisters@, gaugemeister_at as int);
        }
        let gaugemeister = self.gaugemeisters[gaugemeister_at];
        let (key, bump) = match GaugeVoter::find_program_address(&gaugemeister.key, &escrow.key) {
            Some(found) => found,
            None => return Err(LedgerError::NoAddress),
        };
        if find_account(&self.gauge_voters, &key).is_some() {
            return Err(LedgerError::AccountAlreadyExists);
        }
        let mut accounts = CreateGaugeVoter {
            gauge_voter: Account { key, data: GaugeVoter::default() },
            gaugemeister,
            escrow,
        };
        match gauge::create_gauge_voter(&mut accounts, bump) {
            Err(code) => Err(LedgerError::Program(code)),
            Ok(()) => {
                proof {
                    lemma_new_voter_conserves_weights(old(self)@, accounts.gauge_voter);
                }
                self.gauge_voters.push(accounts.gauge_voter);
                Ok(key)
            },
        }
    }

    /// Creates the vote of the voter at `gauge_voter` for the gauge at
    /// `gauge`, and gives the vote's address with the record of the
    /// creation.
    pub fn create_gauge_vote(&mut self, gauge_voter: &Pubkey, gauge: &Pubkey) -> (result: Result<
        (Pubkey, GaugeVoteCreateEvent),
        LedgerError,
    >)
        requires
            old(self).wf(),
        ensures
            final(self).wf(),
            match old(self)@.create_gauge_vote(*gauge_voter, *gauge) {
                Ok((after, created)) => result == Ok::<_, LedgerError>(created) && final(self)@
                    == after,
                Err(error) => result == Err::<(Pubkey, GaugeVoteCreateEvent), _>(error)
                    && final(self)@ == old(self)@,
            },
    {
        let found = (
            find_account(&self.gauge_voters, gauge_voter),
            find_account(&self.gauges, gauge),
        );
        let (voter_at, gauge_at) = match found {
            (Some(voter_at), Some(gauge_at)) => (voter_at, gauge_at),
            _ => return Err(LedgerError::AccountNotFound),
        };
        proof {
            lemma_get_at(self.gauge_voters@, voter_at as int);
            lemma_get_at(self.gauges@, gauge_at as int);
        }
        let gauge_voter = self.gauge_voters[voter_at];
        let gauge = self.gauges[gauge_at];
        let (key, bump) = match GaugeVote::find_program_address(&gauge_voter.key, &gauge.key) {
            Some(found) => found,
            None => return Err(LedgerError::NoAddress),
        };
        if find_account(&self.gauge_votes, &key).is_some() {
            return Err(LedgerError::AccountAlreadyExists);
        }
        let mut accounts = CreateGaugeVote {
            gauge_vote: Account { key, data: GaugeVote::default() },
            gauge_voter,
            gauge,
        };
        match gauge::create_gauge_vote(&mut accounts, bump) {
            Err(code) => Err(LedgerError::Program(code)),
            Ok(event) => {
                proof {
                    lemma_new_vote_conserves_weights(old(self)@, accounts.gauge_vote);
                    lemma_new_vote_bounds_power(old(self)@, accounts.gauge_vote);
                }
                self.gauge_votes.push(accounts.gauge_vote);
                Ok((key, event))
            },
        }
    }

    /// Sets the weight of the vote at `keys` to `weight`, for the one who
    /// asks as the vote delegate of the escrow.
    pub fn gauge_set_vote(&mut self, keys: &VoteKeys, asking: Asking, weight: u32) -> (result:
        Result<Option<SetGaugeVoteEvent>, LedgerError>)
        requires
            old(self).wf(),
        ensures
            final(self).wf(),
            match old(self)@.gauge_set_vote(*keys, asking, weight) {
                Ok((after, event)) => result == Ok::<_, LedgerError>(event) && final(self)@
                    == after,
                Err(error) => result == Err::<Option<SetGaugeVoteEvent>, _>(error) && final(self)@
                    == old(self)@,
            },
    {
        let found = (
            find_account(&self.gaugemeisters, &keys.gaugemeister),
            find_account(&self.gauges, &keys.gauge),
            find_account(&self.gauge_voters, &keys.gauge_voter),
            find_account(&self.gauge_votes, &keys.gauge_vote),
        );
        let (gaugemeister_at, gauge_at, voter_at, vote_at) = match found {
            (Some(gaugemeister_at), Some(gauge_at), Some(voter_at), Some(vote_at)) => (
                gaugemeister_at,
                gauge_at,
                voter_at,
                vote_at,
            ),
            _ => return Err(LedgerError::AccountNotFound),
        };
        proof {
            lemma_get_at(self.gaugemeisters@, gaugemeister_at as int);
            lemma_get_at(self.gauges@, gauge_at as int);
            lemma_get_at(self.gauge_voters@, voter_at as int);
            lemma_get_at(self.gauge_votes@, vote_at as int);
        }
        let mut accounts = GaugeSetVote {
            gaugemeister: self.gaugemeisters[gaugemeister_at],
            gauge: self.gauges[gauge_at],
            gauge_voter: self.gauge_voters[voter_at],
            gauge_vote: self.gauge_votes[vote_at],
            escrow: asking.escrow,
            vote_delegate: asking.vote_delegate,
        };
        match gauge::gauge_set_vote(&mut accounts, weight) {
            Err(code) => Err(LedgerError::Program(code)),
            Ok(event) => {
                proof {
                    lemma_set_vote_conserves_weights(
                        old(self)@,
                        accounts.gauge_voter,
                        accounts.gauge_vote,
                    );
                    lemma_set_vote_bounds_power(
                        old(self)@,
                        accounts.gauge_voter,
                        accounts.gauge_vote,
                    );
                }
                self.gauge_voters.set(voter_at, accounts.gauge_voter);
                self.gauge_votes.set(vote_at, accounts.gauge_vote);
                Ok(event)
            },
        }
    }
}

} // verus!
