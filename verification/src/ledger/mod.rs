//! A ledger: the records of gauge voting, kept together, with the
//! operations on them.
//!
//! Every record stands at the address that is derived from what identifies
//! it, so a record can be created only once. Whatever is done to a ledger,
//! the total weight of a voter is the sum of the weights of the voter's
//! votes, the power that a snapshot has allocated is the sum of the power
//! that is committed against it, and no snapshot has more power allocated
//! than it has. The total power of an epoch gauge is the sum of the power
//! that is committed to its gauge for its epoch.

pub mod bounds;
pub mod delegation;
pub mod guarantees;
pub mod power;
pub mod setup;
pub mod view;
pub mod weights;

use vstd::prelude::*;
use crate::account::Account;
use crate::error::ErrorCode;
use crate::ledger::power::find_commitment;
use crate::ledger::view::{
    commitment_index,
    distinct_keys,
    get,
    has_key,
    is_committed,
    lemma_get_at,
    Commitment,
    LedgerView,
};
use crate::pubkey::Pubkey;
use crate::state::{
    EpochGauge,
    EpochGaugeVote,
    EpochGaugeVoter,
    Gauge,
    GaugeDelegation,
    GaugeVote,
    GaugeVoter,
    Gaugemeister,
};

verus! {

/// Why the ledger refused an operation.
#[derive(Clone, Copy, Debug, PartialEq, Eq, Structural)]
pub enum LedgerError {
    /// The gauge program refused it.
    Program(ErrorCode),
    /// The ledger holds no record at an address that was given.
    AccountNotFound,
    /// The ledger holds a record already at the address of the record to
    /// create.
    AccountAlreadyExists,
    /// No address can be derived for the record to create.
    NoAddress,
}

/// The records of gauge voting.
pub struct Ledger {
    pub(crate) gaugemeisters: Vec<Account<Gaugemeister>>,
    pub(crate) gauges: Vec<Account<Gauge>>,
    pub(crate) gauge_voters: Vec<Account<GaugeVoter>>,
    pub(crate) gauge_votes: Vec<Account<GaugeVote>>,
    pub(crate) epoch_gauges: Vec<Account<EpochGauge>>,
    pub(crate) epoch_gauge_voters: Vec<Account<EpochGaugeVoter>>,
    pub(crate) commitments: Vec<Commitment>,
    pub(crate) gauge_delegations: Vec<Account<GaugeDelegation>>,
}

impl View for Ledger {
    type V = LedgerView;

    open(crate) spec fn view(&self) -> LedgerView {
        LedgerView {
            gaugemeisters: self.gaugemeisters@,
            gauges: self.gauges@,
            gauge_voters: self.gauge_voters@,
            gauge_votes: self.gauge_votes@,
            epoch_gauges: self.epoch_gauges@,
            epoch_gauge_voters: self.epoch_gauge_voters@,
            commitments: self.commitments@,
            gauge_delegations: self.gauge_delegations@,
        }
    }
}

/// Finds where in `accounts` the record at `key` stands.
pub(crate) fn find_account<T>(accounts: &Vec<Account<T>>, key: &Pubkey) -> (found: Option<usize>)
    ensures
        match found {
            Some(at) => at < accounts.len() && accounts@[at as int].key == *key,
            None => !has_key(accounts@, *key),
        },
{
    let mut i: usize = 0;
    while i < accounts.len()
        invariant
            i <= accounts.len(),
            forall|j: int| 0 <= j < i ==> (#[trigger] accounts@[j]).key != *key,
        decreases accounts.len() - i,
    {
        if accounts[i].key == *key {
            return Some(i);
        }
        i += 1;
    }
    None
}

/// Looks up the record at `key` in `accounts`.
pub(crate) fn lookup<T: Copy>(accounts: &Vec<Account<T>>, key: &Pubkey) -> (found: Option<T>)
    requires
        distinct_keys(accounts@),
    ensures
        match get(accounts@, *key) {
            Some(account) => found == Some(account.data),
            None => found is None,
        },
{
    match find_account(accounts, key) {
        Some(at) => {
            proof {
                lemma_get_at(accounts@, at as int);
            }
            Some(accounts[at].data)
        },
        None => None,
    }
}

impl Ledger {
    /// What holds of every ledger, whatever was done to it.
    pub open spec fn wf(&self) -> bool {
        self@.wf()
    }

    /// A ledger that holds nothing.
    pub fn new() -> (ledger: Ledger)
        ensures
            ledger.wf(),
            ledger@ == LedgerView::empty(),
    {
        let ledger = Ledger {
            gaugemeisters: Vec::new(),
            gauges: Vec::new(),
            gauge_voters: Vec::new(),
            gauge_votes: Vec::new(),
            epoch_gauges: Vec::new(),
            epoch_gauge_voters: Vec::new(),
            commitments: Vec::new(),
            gauge_delegations: Vec::new(),
        };
        assert(ledger@ =~= LedgerView::empty());
        ledger
    }

    /// The gaugemeister at `key`, if the ledger holds one.
    pub fn gaugemeister(&self, key: &Pubkey) -> (found: Option<Gaugemeister>)
        requires
            self.wf(),
        ensures
            match get(self@.gaugemeisters, *key) {
                Some(account) => found == Some(account.data),
                None => found is None,
            },
    {
        lookup(&self.gaugemeisters, key)
    }

    /// The gauge at `key`, if the ledger holds one.
    pub fn gauge(&self, key: &Pubkey) -> (found: Option<Gauge>)
        requires
            self.wf(),
        ensures
            match get(self@.gauges, *key) {
                Some(account) => found == Some(account.data),
                None => found is None,
            },
    {
        lookup(&self.gauges, key)
    }

    /// The gauge voter at `key`, if the ledger holds one.
    pub fn gauge_voter(&self, key: &Pubkey) -> (found: Option<GaugeVoter>)
        requires
            self.wf(),
        ensures
            match get(self@.gauge_voters, *key) {
                Some(account) => found == Some(account.data),
                None => found is None,
            },
    {
        lookup(&self.gauge_voters, key)
    }

    /// The gauge vote at `key`, if the ledger holds one.
    pub fn gauge_vote(&self, key: &Pubkey) -> (found: Option<GaugeVote>)
        requires
            self.wf(),
        ensures
            match get(self@.gauge_votes, *key) {
                Some(account) => found == Some(account.data),
                None => found is None,
            },
    {
        lookup(&self.gauge_votes, key)
    }

    /// The epoch gauge at `key`, if the ledger holds one.
    pub fn epoch_gauge(&self, key: &Pubkey) -> (found: Option<EpochGauge>)
        requires
            self.wf(),
        ensures
            match get(self@.epoch_gauges, *key) {
                Some(account) => found == Some(account.data),
                None => found is None,
            },
    {
        lookup(&self.epoch_gauges, key)
    }

    /// The epoch gauge voter at `key`, if the ledger holds one.
    pub fn epoch_gauge_voter(&self, key: &Pubkey) -> (found: Option<EpochGaugeVoter>)
        requires
            self.wf(),
        ensures
            match get(self@.epoch_gauge_voters, *key) {
                Some(account) => found == Some(account.data),
                None => found is None,
            },
    {
        lookup(&self.epoch_gauge_voters, key)
    }

    /// The epoch gauge vote of the vote at `gauge_vote` for the epoch
    /// `voting_epoch`, if the vote is committed for that epoch.
    pub fn epoch_gauge_vote(&self, gauge_vote: &Pubkey, voting_epoch: u32) -> (found: Option<
        EpochGaugeVote,
    >)
        requires
            self.wf(),
        ensures
            found == (if is_committed(self@.commitments, *gauge_vote, voting_epoch) {
                Some(
                    self@.commitments[commitment_index(
                        self@.commitments,
                        *gauge_vote,
                        voting_epoch,
                    )].vote,
                )
            } else {
                None
            }),
    {
        match find_commitment(&self.commitments, gauge_vote, voting_epoch) {
            Some(at) => {
                proof {
                    crate::ledger::power::lemma_commitment_at(self@, at as int);
                }
                Some(self.commitments[at].vote)
            },
            None => None,
        }
    }
}

} // verus!
