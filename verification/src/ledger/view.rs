//! What a ledger holds, as sequences of records, and what holds of every
//! ledger.

use vstd::prelude::*;
use crate::account::Account;
use crate::pubkey::Pubkey;
use crate::address::address_of;
use crate::state::{
    EpochGauge,
    EpochGaugeVote,
    EpochGaugeVoter,
    Gauge,
    GaugeDelegation,
    GaugeVote,
    GaugeVoter,
    Gaugemeister,
};
use crate::sums::sum;

verus! {

/// A committed vote: the epoch gauge vote, with the vote, the gauge, the
/// voter and the epoch that it was committed for.
#[derive(Clone, Copy, Debug, PartialEq, Eq)]
pub struct Commitment {
    /// The address of the epoch gauge vote.
    pub key: Pubkey,
    /// The gauge vote that was committed.
    pub gauge_vote: Pubkey,
    /// The gauge of the vote.
    pub gauge: Pubkey,
    /// The voter of the vote.
    pub gauge_voter: Pubkey,
    /// The epoch that the vote was committed for.
    pub voting_epoch: u32,
    /// The epoch gauge vote.
    pub vote: EpochGaugeVote,
}

/// Whether `accounts` holds a record at `key`.
pub open spec fn has_key<T>(accounts: Seq<Account<T>>, key: Pubkey) -> bool {
    exists|i: int| 0 <= i < accounts.len() && (#[trigger] accounts[i]).key == key
}

/// Where in `accounts` a record at `key` stands.
pub open spec fn index_of<T>(accounts: Seq<Account<T>>, key: Pubkey) -> int {
    choose|i: int| 0 <= i < accounts.len() && (#[trigger] accounts[i]).key == key
}

/// The record that `accounts` holds at `key`.
pub open spec fn get<T>(accounts: Seq<Account<T>>, key: Pubkey) -> Option<Account<T>> {
    if has_key(accounts, key) {
        Some(accounts[index_of(accounts, key)])
    } else {
        None
    }
}

/// `accounts` with `account` in the place of the record at its address.
pub open spec fn put<T>(accounts: Seq<Account<T>>, account: Account<T>) -> Seq<Account<T>> {
    accounts.update(index_of(accounts, account.key), account)
}

/// Whether no two records of `accounts` have the same address.
pub open spec fn distinct_keys<T>(accounts: Seq<Account<T>>) -> bool {
    forall|i: int, j: int|
        0 <= i < j < accounts.len() ==> (#[trigger] accounts[i]).key != (#[trigger] accounts[j]).key
}

/// Whether `commitments` holds an epoch gauge vote at `key`.
pub open spec fn has_commitment_at(commitments: Seq<Commitment>, key: Pubkey) -> bool {
    exists|i: int| 0 <= i < commitments.len() && (#[trigger] commitments[i]).key == key
}

/// Whether `commitment` is of the vote `gauge_vote` for the epoch
/// `voting_epoch`.
pub open spec fn commits(commitment: Commitment, gauge_vote: Pubkey, voting_epoch: u32) -> bool {
    commitment.gauge_vote == gauge_vote && commitment.voting_epoch == voting_epoch
}

/// Whether `commitments` holds the commitment of the vote `gauge_vote` for
/// the epoch `voting_epoch`.
pub open spec fn is_committed(commitments: Seq<Commitment>, gauge_vote: Pubkey, voting_epoch: u32)
    -> bool {
    exists|i: int|
        0 <= i < commitments.len() && commits(#[trigger] commitments[i], gauge_vote, voting_epoch)
}

/// Where in `commitments` the commitment of the vote `gauge_vote` for the
/// epoch `voting_epoch` stands.
pub open spec fn commitment_index(
    commitments: Seq<Commitment>,
    gauge_vote: Pubkey,
    voting_epoch: u32,
) -> int {
    choose|i: int|
        0 <= i < commitments.len() && commits(#[trigger] commitments[i], gauge_vote, voting_epoch)
}

/// Whether no two commitments have the same address.
pub open spec fn distinct_commitments(commitments: Seq<Commitment>) -> bool {
    forall|i: int, j: int|
        0 <= i < j < commitments.len() ==> (#[trigger] commitments[i]).key
            != (#[trigger] commitments[j]).key
}

/// What a vote weighs for the voter at `gauge_voter`: its weight if it is
/// the voter's, and nothing otherwise.
pub open spec fn weight_for(gauge_voter: Pubkey) -> spec_fn(Account<GaugeVote>) -> int {
    |vote: Account<GaugeVote>|
        if vote.data.gauge_voter == gauge_voter {
            vote.data.weight as int
        } else {
            0
        }
}

/// The sum of the weights of the votes of the voter at `gauge_voter`.
pub open spec fn total_weight(votes: Seq<Account<GaugeVote>>, gauge_voter: Pubkey) -> int {
    sum(votes, weight_for(gauge_voter))
}

/// What a commitment holds of the voter at `gauge_voter` for the epoch
/// `voting_epoch`: its power if it is of that voter and epoch, and nothing
/// otherwise.
pub open spec fn power_of_voter(gauge_voter: Pubkey, voting_epoch: u32) -> spec_fn(
    Commitment,
) -> int {
    |commitment: Commitment|
        if commitment.gauge_voter == gauge_voter && commitment.voting_epoch == voting_epoch {
            commitment.vote.allocated_power as int
        } else {
            0
        }
}

/// The sum of the power that the voter at `gauge_voter` has committed for
/// the epoch `voting_epoch`.
pub open spec fn committed_by_voter(
    commitments: Seq<Commitment>,
    gauge_voter: Pubkey,
    voting_epoch: u32,
) -> int {
    sum(commitments, power_of_voter(gauge_voter, voting_epoch))
}

/// What a commitment holds for the gauge at `gauge` in the epoch
/// `voting_epoch`: its power if it is for that gauge and epoch, and nothing
/// otherwise.
pub open spec fn power_for_gauge(gauge: Pubkey, voting_epoch: u32) -> spec_fn(Commitment) -> int {
    |commitment: Commitment|
        if commitment.gauge == gauge && commitment.voting_epoch == voting_epoch {
            commitment.vote.allocated_power as int
        } else {
            0
        }
}

/// The sum of the power that is committed to the gauge at `gauge` for the
/// epoch `voting_epoch`.
pub open spec fn committed_to_gauge(
    commitments: Seq<Commitment>,
    gauge: Pubkey,
    voting_epoch: u32,
) -> int {
    sum(commitments, power_for_gauge(gauge, voting_epoch))
}

/// The weight of the vote at `gauge_vote`; nothing where there is no such
/// vote.
pub open spec fn weight_of(votes: Seq<Account<GaugeVote>>, gauge_vote: Pubkey) -> int {
    match get(votes, gauge_vote) {
        Some(vote) => vote.data.weight as int,
        None => 0,
    }
}

/// What the vote of a commitment weighs, if the commitment is of the voter
/// at `gauge_voter` for the epoch `voting_epoch`, and nothing otherwise.
pub open spec fn weight_of_commitment(
    votes: Seq<Account<GaugeVote>>,
    gauge_voter: Pubkey,
    voting_epoch: u32,
) -> spec_fn(Commitment) -> int {
    |commitment: Commitment|
        if commitment.gauge_voter == gauge_voter && commitment.voting_epoch == voting_epoch {
            weight_of(votes, commitment.gauge_vote)
        } else {
            0
        }
}

/// The sum, over the commitments of the voter at `gauge_voter` for the
/// epoch `voting_epoch`, of the weights of their votes.
pub open spec fn committed_weight(
    commitments: Seq<Commitment>,
    votes: Seq<Account<GaugeVote>>,
    gauge_voter: Pubkey,
    voting_epoch: u32,
) -> int {
    sum(commitments, weight_of_commitment(votes, gauge_voter, voting_epoch))
}

/// What a vote weighs, if it is of the voter at `gauge_voter` and committed
/// for the epoch `voting_epoch`, and nothing otherwise.
pub open spec fn weight_if_committed(
    commitments: Seq<Commitment>,
    gauge_voter: Pubkey,
    voting_epoch: u32,
) -> spec_fn(Account<GaugeVote>) -> int {
    |vote: Account<GaugeVote>|
        if vote.data.gauge_voter == gauge_voter && is_committed(
            commitments,
            vote.key,
            voting_epoch,
        ) {
            vote.data.weight as int
        } else {
            0
        }
}

/// The sum of the weights of the votes of the voter at `gauge_voter` that
/// are committed for the epoch `voting_epoch`.
pub open spec fn weight_of_committed_votes(
    votes: Seq<Account<GaugeVote>>,
    commitments: Seq<Commitment>,
    gauge_voter: Pubkey,
    voting_epoch: u32,
) -> int {
    sum(votes, weight_if_committed(commitments, gauge_voter, voting_epoch))
}

/// What a ledger holds.
pub struct LedgerView {
    /// The gaugemeisters.
    pub gaugemeisters: Seq<Account<Gaugemeister>>,
    /// The gauges.
    pub gauges: Seq<Account<Gauge>>,
    /// The gauge voters.
    pub gauge_voters: Seq<Account<GaugeVoter>>,
    /// The gauge votes.
    pub gauge_votes: Seq<Account<GaugeVote>>,
    /// The epoch gauges.
    pub epoch_gauges: Seq<Account<EpochGauge>>,
    /// The epoch gauge voters.
    pub epoch_gauge_voters: Seq<Account<EpochGaugeVoter>>,
    /// The committed votes.
    pub commitments: Seq<Commitment>,
    /// The gauge delegations.
    pub gauge_delegations: Seq<Account<GaugeDelegation>>,
}

impl LedgerView {
    /// The ledger that holds nothing.
    pub open spec fn empty() -> LedgerView {
        LedgerView {
            gaugemeisters: Seq::empty(),
            gauges: Seq::empty(),
            gauge_voters: Seq::empty(),
            gauge_votes: Seq::empty(),
            epoch_gauges: Seq::empty(),
            epoch_gauge_voters: Seq::empty(),
            commitments: Seq::empty(),
            gauge_delegations: Seq::empty(),
        }
    }

    /// No two records of one kind have the same address.
    pub open spec fn keys_distinct(self) -> bool {
        &&& distinct_keys(self.gaugemeisters)
        &&& distinct_keys(self.gauges)
        &&& distinct_keys(self.gauge_voters)
        &&& distinct_keys(self.gauge_votes)
        &&& distinct_keys(self.epoch_gauges)
        &&& distinct_keys(self.epoch_gauge_voters)
        &&& distinct_commitments(self.commitments)
        &&& distinct_keys(self.gauge_delegations)
    }

    /// The records of one epoch stand at the addresses derived from what
    /// identifies them.
    pub open spec fn addresses_derived(self) -> bool {
        &&& forall|i: int|
            0 <= i < self.epoch_gauges.len() ==> address_of(
                EpochGauge::spec_find_program_address(
                    (#[trigger] self.epoch_gauges[i]).data.gauge,
                    self.epoch_gauges[i].data.voting_epoch,
                ),
            ) == Some(self.epoch_gauges[i].key)
        &&& forall|i: int|
            0 <= i < self.epoch_gauge_voters.len() ==> address_of(
                EpochGaugeVoter::spec_find_program_address(
                    (#[trigger] self.epoch_gauge_voters[i]).data.gauge_voter,
                    self.epoch_gauge_voters[i].data.voting_epoch,
                ),
            ) == Some(self.epoch_gauge_voters[i].key)
        &&& forall|i: int|
            0 <= i < self.commitments.len() ==> address_of(
                EpochGaugeVote::spec_find_program_address(
                    (#[trigger] self.commitments[i]).gauge_vote,
                    self.commitments[i].voting_epoch,
                ),
            ) == Some(self.commitments[i].key)
    }

    /// The total weight of every voter is the sum of the weights of the
    /// voter's votes.
    pub open spec fn weights_conserved(self) -> bool {
        forall|i: int|
            0 <= i < self.gauge_voters.len() ==> (#[trigger] self.gauge_voters[i]).data.total_weight
                == total_weight(self.gauge_votes, self.gauge_voters[i].key)
    }

    /// Every vote is of a voter that the ledger holds.
    pub open spec fn votes_have_voters(self) -> bool {
        forall|i: int|
            0 <= i < self.gauge_votes.len() ==> has_key(
                self.gauge_voters,
                (#[trigger] self.gauge_votes[i]).data.gauge_voter,
            )
    }

    /// Every commitment is of a vote that the ledger holds, for the vote's
    /// gauge and by the vote's voter.
    pub open spec fn commitments_have_votes(self) -> bool {
        forall|i: int|
            0 <= i < self.commitments.len() ==> {
                let commitment = #[trigger] self.commitments[i];
                get(self.gauge_votes, commitment.gauge_vote) matches Some(vote)
                    && vote.data.gauge == commitment.gauge && vote.data.gauge_voter
                    == commitment.gauge_voter
            }
    }

    /// Every commitment was made against a snapshot that the ledger holds.
    pub open spec fn commitments_have_snapshots(self) -> bool {
        forall|i: int|
            0 <= i < self.commitments.len() ==> {
                let commitment = #[trigger] self.commitments[i];
                address_of(
                    EpochGaugeVoter::spec_find_program_address(
                        commitment.gauge_voter,
                        commitment.voting_epoch,
                    ),
                ) matches Some(key) && has_key(self.epoch_gauge_voters, key)
            }
    }

    /// The power that every snapshot has allocated is the sum of the power
    /// that its voter has committed for its epoch.
    pub open spec fn voter_power_conserved(self) -> bool {
        forall|i: int|
            0 <= i < self.epoch_gauge_voters.len() ==> (
            #[trigger] self.epoch_gauge_voters[i]).data.allocated_power == committed_by_voter(
                self.commitments,
                self.epoch_gauge_voters[i].data.gauge_voter,
                self.epoch_gauge_voters[i].data.voting_epoch,
            )
    }

    /// Every snapshot is of a voter that the ledger holds, and carries a
    /// sequence number that the voter has reached.
    pub open spec fn snapshots_not_ahead(self) -> bool {
        forall|i: int|
            0 <= i < self.epoch_gauge_voters.len() ==> {
                let snapshot = #[trigger] self.epoch_gauge_voters[i];
                get(self.gauge_voters, snapshot.data.gauge_voter) matches Some(voter)
                    && snapshot.data.weight_change_seqno <= voter.data.weight_change_seqno
            }
    }

    /// No snapshot has more power allocated than it has.
    pub open spec fn allocations_bounded(self) -> bool {
        forall|i: int|
            0 <= i < self.epoch_gauge_voters.len() ==> (
            #[trigger] self.epoch_gauge_voters[i]).data.allocated_power
                <= self.epoch_gauge_voters[i].data.voting_power
    }

    /// Whether the commitment `commitment` holds at most the share that its
    /// vote has of the power of the snapshot `snapshot`, by the weights of
    /// the voter `voter` as they are.
    pub open spec fn within_share(
        self,
        snapshot: EpochGaugeVoter,
        voter: GaugeVoter,
        commitment: Commitment,
    ) -> bool {
        commitment.vote.allocated_power * voter.total_weight <= snapshot.voting_power * weight_of(
            self.gauge_votes,
            commitment.gauge_vote,
        )
    }

    /// Against a snapshot that carries the sequence number of its voter,
    /// every commitment holds at most the share that its vote has of the
    /// snapshot's power, by the weights as they are.
    pub open spec fn shares_bounded(self) -> bool {
        forall|i: int, k: int|
            0 <= i < self.epoch_gauge_voters.len() && 0 <= k < self.commitments.len() ==> {
                let snapshot = (#[trigger] self.epoch_gauge_voters[i]).data;
                let commitment = #[trigger] self.commitments[k];
                let voter = get(self.gauge_voters, snapshot.gauge_voter);
                voter is Some && snapshot.weight_change_seqno
                    == voter.unwrap().data.weight_change_seqno && commitment.gauge_voter
                    == snapshot.gauge_voter && commitment.voting_epoch == snapshot.voting_epoch
                    ==> self.within_share(snapshot, voter.unwrap().data, commitment)
            }
    }

    /// For every snapshot, the weights of the votes of its commitments add
    /// up to the weights of the votes of its voter that are committed for
    /// its epoch.
    pub open spec fn committed_weights_agree(self) -> bool {
        forall|i: int|
            0 <= i < self.epoch_gauge_voters.len() ==> committed_weight(
                self.commitments,
                self.gauge_votes,
                (#[trigger] self.epoch_gauge_voters[i]).data.gauge_voter,
                self.epoch_gauge_voters[i].data.voting_epoch,
            ) == weight_of_committed_votes(
                self.gauge_votes,
                self.commitments,
                self.epoch_gauge_voters[i].data.gauge_voter,
                self.epoch_gauge_voters[i].data.voting_epoch,
            )
    }

    /// The records are in order: each stands at its own address, belongs to
    /// records that the ledger holds, and the sums of weights and of power
    /// are what the voters and the snapshots say.
    pub open spec fn records_in_order(self) -> bool {
        &&& self.keys_distinct()
        &&& self.addresses_derived()
        &&& self.weights_conserved()
        &&& self.votes_have_voters()
        &&& self.commitments_have_votes()
        &&& self.commitments_have_snapshots()
        &&& self.voter_power_conserved()
        &&& self.gauge_power_conserved()
        &&& self.snapshots_not_ahead()
    }

    /// The power that is allocated stays within the power that there is.
    pub open spec fn power_bounded(self) -> bool {
        &&& self.allocations_bounded()
        &&& self.shares_bounded()
        &&& self.committed_weights_agree()
    }

    /// What holds of every ledger, whatever was done to it.
    pub open spec fn wf(self) -> bool {
        &&& self.records_in_order()
        &&& self.power_bounded()
    }

    /// The total power of every epoch gauge is the sum of the power that is
    /// committed to its gauge for its epoch, and every commitment has its
    /// epoch gauge.
    pub open spec fn gauge_power_conserved(self) -> bool {
        &&& forall|i: int|
            0 <= i < self.epoch_gauges.len() ==> (#[trigger] self.epoch_gauges[i]).data.total_power
                == committed_to_gauge(
                self.commitments,
                self.epoch_gauges[i].data.gauge,
                self.epoch_gauges[i].data.voting_epoch,
            )
        &&& forall|i: int|
            0 <= i < self.commitments.len() ==> {
                let commitment = #[trigger] self.commitments[i];
                address_of(
                    EpochGauge::spec_find_program_address(
                        commitment.gauge,
                        commitment.voting_epoch,
                    ),
                ) matches Some(key) && has_key(self.epoch_gauges, key)
            }
    }
}

/// In a sequence without repeated addresses, a record is found at its
/// address, and where it stands.
pub proof fn lemma_get_at<T>(accounts: Seq<Account<T>>, at: int)
    requires
        distinct_keys(accounts),
        0 <= at < accounts.len(),
    ensures
        has_key(accounts, accounts[at].key),
        index_of(accounts, accounts[at].key) == at,
        get(accounts, accounts[at].key) == Some(accounts[at]),
{
    let found = index_of(accounts, accounts[at].key);
    assert(0 <= found < accounts.len() && accounts[found].key == accounts[at].key);
    if found < at {
        assert(accounts[found].key != accounts[at].key);
    } else if at < found {
        assert(accounts[at].key != accounts[found].key);
    }
}

/// A record that is found stands in the sequence, at its address.
pub proof fn lemma_get_found<T>(accounts: Seq<Account<T>>, key: Pubkey)
    requires
        has_key(accounts, key),
    ensures
        0 <= index_of(accounts, key) < accounts.len(),
        accounts[index_of(accounts, key)].key == key,
        get(accounts, key) == Some(accounts[index_of(accounts, key)]),
{
}

/// Adding a record at a new address keeps the addresses distinct, and
/// leaves every other record to be found as before.
pub proof fn lemma_push_account<T>(accounts: Seq<Account<T>>, account: Account<T>)
    requires
        distinct_keys(accounts),
        !has_key(accounts, account.key),
    ensures
        distinct_keys(accounts.push(account)),
        get(accounts.push(account), account.key) == Some(account),
        forall|key: Pubkey|
            key != account.key ==> #[trigger] get(accounts.push(account), key) == get(accounts, key),
        forall|key: Pubkey|
            #[trigger] has_key(accounts.push(account), key) == (key == account.key || has_key(accounts, key)),
{
    let after = accounts.push(account);
    assert forall|i: int, j: int| 0 <= i < j < after.len() implies (#[trigger] after[i]).key != (
    #[trigger] after[j]).key by {
        if j == accounts.len() {
            assert(accounts[i].key != account.key);
        } else {
            assert(accounts[i].key != accounts[j].key);
        }
    }
    assert(after[accounts.len() as int].key == account.key);
    lemma_get_at(after, accounts.len() as int);
    assert forall|key: Pubkey| #[trigger] has_key(after, key) == (key
        == account.key || has_key(accounts, key)) by {
        if has_key(accounts, key) {
            let i = index_of(accounts, key);
            assert(after[i].key == key);
        }
        if has_key(after, key) && key != account.key {
            let i = index_of(after, key);
            assert(accounts[i].key == key);
        }
    }
    assert forall|key: Pubkey| key != account.key implies #[trigger] get(after, key) == get(
        accounts,
        key,
    ) by {
        if has_key(accounts, key) {
            let i = index_of(accounts, key);
            assert(after[i] == accounts[i]);
            lemma_get_at(after, i);
        }
    }
}

/// Replacing the record at an address keeps the addresses distinct and
/// every record in its place.
pub proof fn lemma_put_account<T>(accounts: Seq<Account<T>>, account: Account<T>)
    requires
        distinct_keys(accounts),
        has_key(accounts, account.key),
    ensures
        distinct_keys(put(accounts, account)),
        put(accounts, account).len() == accounts.len(),
        get(put(accounts, account), account.key) == Some(account),
        forall|key: Pubkey|
            key != account.key ==> #[trigger] get(put(accounts, account), key) == get(accounts, key),
        forall|key: Pubkey| #[trigger] has_key(put(accounts, account), key) == has_key(accounts, key),
        forall|i: int|
            0 <= i < accounts.len() ==> (#[trigger] put(accounts, account)[i]).key == accounts[i].key,
{
    let at = index_of(accounts, account.key);
    let after = put(accounts, account);
    assert forall|i: int| 0 <= i < accounts.len() implies (#[trigger] after[i]).key
        == accounts[i].key by {}
    assert forall|i: int, j: int| 0 <= i < j < after.len() implies (#[trigger] after[i]).key != (
    #[trigger] after[j]).key by {
        assert(accounts[i].key != accounts[j].key);
    }
    lemma_get_at(after, at);
    assert forall|key: Pubkey| #[trigger] has_key(after, key) == has_key(accounts, key) by {
        if has_key(accounts, key) {
            let i = index_of(accounts, key);
            assert(after[i].key == key);
        }
        if has_key(after, key) {
            let i = index_of(after, key);
            assert(accounts[i].key == key);
        }
    }
    assert forall|key: Pubkey| key != account.key implies #[trigger] get(after, key) == get(
        accounts,
        key,
    ) by {
        if has_key(accounts, key) {
            let i = index_of(accounts, key);
            lemma_get_at(accounts, i);
            assert(after[i] == accounts[i]);
            lemma_get_at(after, i);
        }
    }
}

} // verus!
