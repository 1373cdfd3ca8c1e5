use gauge::account::Account;
use gauge::error::ErrorCode;
use gauge::ledger::weights::{Asking, VoteKeys};
use gauge::ledger::{Ledger, LedgerError};
use gauge::locker::{Escrow, Locker, LockerParams};
use gauge::pubkey::Pubkey;
use gauge::quarry::{Operator, Quarry};

const FIRST_EPOCH_STARTS_AT: u64 = 1_000_000;
const MAX_STAKE_DURATION: u64 = 1_000;

fn key(n: u8) -> Pubkey {
    Pubkey::new_from_array([n; 32])
}

fn locker() -> Account<Locker> {
    Account::new(
        key(40),
        Locker {
            token_mint: key(41),
            governor: key(42),
            params: LockerParams {
                max_stake_vote_multiplier: 1,
                max_stake_duration: MAX_STAKE_DURATION,
            },
        },
    )
}

/// An escrow that has `power` voting power when the first epoch starts.
fn escrow(power: u64) -> Account<Escrow> {
    Account::new(
        key(50),
        Escrow {
            locker: key(40),
            owner: key(51),
            vote_delegate: key(52),
            amount: power,
            escrow_started_at: 1,
            escrow_ends_at: FIRST_EPOCH_STARTS_AT as i64 + MAX_STAKE_DURATION as i64,
        },
    )
}

struct World {
    ledger: Ledger,
    gaugemeister: Pubkey,
    gauge_a: Pubkey,
    gauge_b: Pubkey,
    voter: Pubkey,
    vote_a: Pubkey,
    vote_b: Pubkey,
    epoch_gauge_a: Pubkey,
    epoch_gauge_b: Pubkey,
    escrow: Account<Escrow>,
}

impl World {
    fn keys_a(&self) -> VoteKeys {
        VoteKeys {
            gaugemeister: self.gaugemeister,
            gauge: self.gauge_a,
            gauge_voter: self.voter,
            gauge_vote: self.vote_a,
        }
    }

    fn keys_b(&self) -> VoteKeys {
        VoteKeys {
            gaugemeister: self.gaugemeister,
            gauge: self.gauge_b,
            gauge_voter: self.voter,
            gauge_vote: self.vote_b,
        }
    }

    fn delegate(&self) -> Asking {
        Asking { escrow: self.escrow, vote_delegate: self.escrow.data.vote_delegate }
    }

    fn set_vote(&mut self, keys: VoteKeys, weight: u32) -> Result<bool, LedgerError> {
        let asking = self.delegate();
        self.ledger.gauge_set_vote(&keys, asking, weight).map(|event| event.is_some())
    }

    fn prepare(&mut self) -> Pubkey {
        let escrow = self.escrow;
        let (snapshot, _) = self
            .ledger
            .prepare_epoch_gauge_voter(&self.gaugemeister, &self.voter, locker(), escrow)
            .unwrap();
        snapshot
    }
}

/// A gaugemeister with two enabled gauges, one voter with `power` voting
/// power and a vote for each gauge, and the epoch gauges of epoch 1.
fn world(power: u64) -> World {
    let mut ledger = Ledger::new();
    let operator = Account::new(key(30), Operator { rewarder: key(31) });
    let created = ledger
        .create_gaugemeister(key(1), operator, locker(), key(2), 604_800, FIRST_EPOCH_STARTS_AT, 10)
        .unwrap();
    let gaugemeister = created.gaugemeister;
    let (gauge_a, _) =
        ledger.create_gauge(&gaugemeister, Account::new(key(60), Quarry { rewarder: key(31) })).unwrap();
    let (gauge_b, _) =
        ledger.create_gauge(&gaugemeister, Account::new(key(61), Quarry { rewarder: key(31) })).unwrap();
    ledger.gauge_enable(&gaugemeister, &gauge_a, key(2)).unwrap();
    ledger.gauge_enable(&gaugemeister, &gauge_b, key(2)).unwrap();
    let escrow = escrow(power);
    let voter = ledger.create_gauge_voter(&gaugemeister, escrow).unwrap();
    let (vote_a, _) = ledger.create_gauge_vote(&voter, &gauge_a).unwrap();
    let (vote_b, _) = ledger.create_gauge_vote(&voter, &gauge_b).unwrap();
    let epoch_gauge_a = ledger.create_epoch_gauge(&gauge_a, 1).unwrap();
    let epoch_gauge_b = ledger.create_epoch_gauge(&gauge_b, 1).unwrap();
    World {
        ledger,
        gaugemeister,
        gauge_a,
        gauge_b,
        voter,
        vote_a,
        vote_b,
        epoch_gauge_a,
        epoch_gauge_b,
        escrow,
    }
}

#[test]
fn ledger_basic_vote_and_commit() {
    let mut w = world(1000);
    assert_eq!(w.set_vote(w.keys_a(), 100), Ok(true));
    assert_eq!(w.ledger.gauge_voter(&w.voter).unwrap().total_weight, 100);
    let snapshot = w.prepare();
    assert_eq!(w.ledger.epoch_gauge_voter(&snapshot).unwrap().voting_power, 1000);
    let event = w.ledger.gauge_commit_vote(&w.keys_a(), &w.epoch_gauge_a, &snapshot).unwrap().unwrap();
    assert_eq!(event.vote_shares_for_next_epoch, 1000);
    assert_eq!(w.ledger.epoch_gauge(&w.epoch_gauge_a).unwrap().total_power, 1000);
    assert_eq!(w.ledger.epoch_gauge_voter(&snapshot).unwrap().allocated_power, 1000);
    assert_eq!(w.ledger.epoch_gauge_vote(&w.vote_a, 1).unwrap().allocated_power, 1000);
}

#[test]
fn ledger_two_gauges_split() {
    let mut w = world(1000);
    assert_eq!(w.set_vote(w.keys_a(), 30), Ok(true));
    assert_eq!(w.set_vote(w.keys_b(), 70), Ok(true));
    assert_eq!(w.ledger.gauge_voter(&w.voter).unwrap().total_weight, 100);
    let snapshot = w.prepare();
    let a = w.ledger.gauge_commit_vote(&w.keys_a(), &w.epoch_gauge_a, &snapshot).unwrap().unwrap();
    let b = w.ledger.gauge_commit_vote(&w.keys_b(), &w.epoch_gauge_b, &snapshot).unwrap().unwrap();
    assert_eq!(a.vote_shares_for_next_epoch, 300);
    assert_eq!(b.vote_shares_for_next_epoch, 700);
    assert_eq!(w.ledger.epoch_gauge_voter(&snapshot).unwrap().allocated_power, 1000);
    assert_eq!(w.ledger.epoch_gauge(&w.epoch_gauge_a).unwrap().total_power, 300);
    assert_eq!(w.ledger.epoch_gauge(&w.epoch_gauge_b).unwrap().total_power, 700);
}

#[test]
fn ledger_rounding_loss() {
    let mut w = world(10);
    assert_eq!(w.set_vote(w.keys_a(), 1), Ok(true));
    assert_eq!(w.set_vote(w.keys_b(), 2), Ok(true));
    let snapshot = w.prepare();
    let a = w.ledger.gauge_commit_vote(&w.keys_a(), &w.epoch_gauge_a, &snapshot).unwrap().unwrap();
    let b = w.ledger.gauge_commit_vote(&w.keys_b(), &w.epoch_gauge_b, &snapshot).unwrap().unwrap();
    assert_eq!(a.vote_shares_for_next_epoch, 3);
    assert_eq!(b.vote_shares_for_next_epoch, 6);
    let snapshot = w.ledger.epoch_gauge_voter(&snapshot).unwrap();
    assert_eq!(snapshot.allocated_power, 9);
    assert_eq!(snapshot.voting_power, 10);
}

#[test]
fn ledger_revert_after_weight_change() {
    let mut w = world(1000);
    assert_eq!(w.set_vote(w.keys_a(), 30), Ok(true));
    assert_eq!(w.set_vote(w.keys_b(), 70), Ok(true));
    let snapshot = w.prepare();
    w.ledger.gauge_commit_vote(&w.keys_a(), &w.epoch_gauge_a, &snapshot).unwrap().unwrap();
    assert_eq!(w.set_vote(w.keys_b(), 50), Ok(true));
    assert_eq!(
        w.ledger.gauge_commit_vote(&w.keys_b(), &w.epoch_gauge_b, &snapshot),
        Err(LedgerError::Program(ErrorCode::WeightSeqnoChanged))
    );
    let event =
        w.ledger.gauge_revert_vote(&w.keys_a(), &w.epoch_gauge_a, &snapshot, w.delegate()).unwrap();
    assert_eq!(event.subtracted_power, 300);
    assert_eq!(w.ledger.epoch_gauge(&w.epoch_gauge_a).unwrap().total_power, 0);
    assert_eq!(w.ledger.epoch_gauge_voter(&snapshot).unwrap().allocated_power, 0);
    assert_eq!(w.ledger.epoch_gauge_vote(&w.vote_a, 1), None);
}

#[test]
fn ledger_starts_empty() {
    let ledger = Ledger::new();
    assert_eq!(ledger.gaugemeister(&key(1)), None);
    assert_eq!(ledger.gauge(&key(1)), None);
    assert_eq!(ledger.gauge_voter(&key(1)), None);
    assert_eq!(ledger.gauge_vote(&key(1)), None);
    assert_eq!(ledger.epoch_gauge(&key(1)), None);
    assert_eq!(ledger.epoch_gauge_voter(&key(1)), None);
    assert_eq!(ledger.epoch_gauge_vote(&key(1), 1), None);
    assert_eq!(ledger.gauge_delegation(&key(1)), None);
}

#[test]
fn ledger_holds_what_was_created() {
    let w = world(1000);
    let gaugemeister = w.ledger.gaugemeister(&w.gaugemeister).unwrap();
    assert_eq!(gaugemeister.base, key(1));
    assert_eq!(gaugemeister.foreman, key(2));
    assert_eq!(gaugemeister.rewarder, key(31));
    assert_eq!(gaugemeister.current_rewards_epoch, 0);
    assert_eq!(gaugemeister.next_epoch_starts_at, FIRST_EPOCH_STARTS_AT);
    let gauge = w.ledger.gauge(&w.gauge_a).unwrap();
    assert_eq!(gauge.gaugemeister, w.gaugemeister);
    assert_eq!(gauge.quarry, key(60));
    assert!(!gauge.is_disabled);
    let voter = w.ledger.gauge_voter(&w.voter).unwrap();
    assert_eq!(voter.escrow, key(50));
    assert_eq!(voter.total_weight, 0);
    let vote = w.ledger.gauge_vote(&w.vote_b).unwrap();
    assert_eq!(vote.gauge, w.gauge_b);
    assert_eq!(vote.gauge_voter, w.voter);
    let epoch_gauge = w.ledger.epoch_gauge(&w.epoch_gauge_a).unwrap();
    assert_eq!(epoch_gauge.gauge, w.gauge_a);
    assert_eq!(epoch_gauge.voting_epoch, 1);
    assert_eq!(epoch_gauge.total_power, 0);
}

#[test]
fn ledger_creates_every_record_once() {
    let mut w = world(1000);
    let operator = Account::new(key(30), Operator { rewarder: key(31) });
    assert_eq!(
        w.ledger.create_gaugemeister(key(1), operator, locker(), key(2), 604_800, FIRST_EPOCH_STARTS_AT, 10),
        Err(LedgerError::AccountAlreadyExists)
    );
    assert_eq!(
        w.ledger.create_gauge(&w.gaugemeister, Account::new(key(60), Quarry { rewarder: key(31) })),
        Err(LedgerError::AccountAlreadyExists)
    );
    assert_eq!(w.ledger.create_gauge_voter(&w.gaugemeister, w.escrow), Err(LedgerError::AccountAlreadyExists));
    assert_eq!(w.ledger.create_gauge_vote(&w.voter, &w.gauge_a), Err(LedgerError::AccountAlreadyExists));
    assert_eq!(w.ledger.create_epoch_gauge(&w.gauge_a, 1), Err(LedgerError::AccountAlreadyExists));
    assert_eq!(w.ledger.create_epoch_gauge(&w.gauge_a, 2).map(|_| ()), Ok(()));
    w.prepare();
    let escrow = w.escrow;
    assert_eq!(
        w.ledger.prepare_epoch_gauge_voter(&w.gaugemeister, &w.voter, locker(), escrow),
        Err(LedgerError::AccountAlreadyExists)
    );
}

#[test]
fn ledger_refuses_what_the_program_refuses() {
    let mut w = world(1000);
    let operator = Account::new(key(30), Operator { rewarder: key(31) });
    assert_eq!(
        w.ledger.create_gaugemeister(key(9), operator, locker(), key(2), 604_800, 10, 10),
        Err(LedgerError::Program(ErrorCode::InvariantFailed))
    );
    assert_eq!(
        w.ledger.create_gauge(&w.gaugemeister, Account::new(key(62), Quarry { rewarder: key(99) })),
        Err(LedgerError::Program(ErrorCode::KeyMismatch))
    );
    assert_eq!(
        w.ledger.gauge_disable(&w.gaugemeister, &w.gauge_a, key(3)),
        Err(LedgerError::Program(ErrorCode::UnauthorizedNotForeman))
    );
    assert_eq!(
        w.ledger.trigger_next_epoch(&w.gaugemeister, FIRST_EPOCH_STARTS_AT as i64 - 1),
        Err(LedgerError::Program(ErrorCode::NextEpochNotReached))
    );
    assert_eq!(
        w.ledger.set_gaugemeister_params(&w.gaugemeister, key(3), 5, key(3)),
        Err(LedgerError::Program(ErrorCode::UnauthorizedNotForeman))
    );
    let stranger = Asking { escrow: w.escrow, vote_delegate: key(99) };
    assert_eq!(
        w.ledger.gauge_set_vote(&w.keys_a(), stranger, 5),
        Err(LedgerError::Program(ErrorCode::KeyMismatch))
    );
    assert_eq!(w.ledger.gauge_voter(&w.voter).unwrap().total_weight, 0);
}

#[test]
fn ledger_refuses_records_it_does_not_hold() {
    let mut w = world(1000);
    assert_eq!(
        w.ledger.create_gauge(&key(9), Account::new(key(60), Quarry { rewarder: key(31) })),
        Err(LedgerError::AccountNotFound)
    );
    assert_eq!(w.ledger.create_gauge_vote(&w.voter, &key(9)), Err(LedgerError::AccountNotFound));
    assert_eq!(w.ledger.create_epoch_gauge(&key(9), 1), Err(LedgerError::AccountNotFound));
    let keys = VoteKeys { gauge_vote: key(9), ..w.keys_a() };
    assert_eq!(w.set_vote(keys, 5), Err(LedgerError::AccountNotFound));
    assert_eq!(
        w.ledger.gauge_commit_vote(&w.keys_a(), &w.epoch_gauge_a, &key(9)),
        Err(LedgerError::AccountNotFound)
    );
    let snapshot = w.prepare();
    assert_eq!(
        w.ledger.gauge_revert_vote(&w.keys_a(), &w.epoch_gauge_a, &snapshot, w.delegate()),
        Err(LedgerError::AccountNotFound)
    );
}

#[test]
fn ledger_conserves_weights() {
    let mut w = world(1000);
    assert_eq!(w.set_vote(w.keys_a(), 30), Ok(true));
    assert_eq!(w.set_vote(w.keys_b(), 70), Ok(true));
    assert_eq!(w.set_vote(w.keys_a(), 5), Ok(true));
    assert_eq!(w.set_vote(w.keys_b(), 70), Ok(false));
    assert_eq!(w.set_vote(w.keys_b(), 0), Ok(true));
    let voter = w.ledger.gauge_voter(&w.voter).unwrap();
    assert_eq!(voter.total_weight, 5);
    assert_eq!(voter.weight_change_seqno, 4);
    assert_eq!(w.ledger.gauge_vote(&w.vote_a).unwrap().weight, 5);
    assert_eq!(w.ledger.gauge_vote(&w.vote_b).unwrap().weight, 0);
}

#[test]
fn ledger_commits_every_vote_once() {
    let mut w = world(1000);
    assert_eq!(w.set_vote(w.keys_a(), 30), Ok(true));
    assert_eq!(w.set_vote(w.keys_b(), 70), Ok(true));
    let snapshot = w.prepare();
    w.ledger.gauge_commit_vote(&w.keys_a(), &w.epoch_gauge_a, &snapshot).unwrap().unwrap();
    assert_eq!(
        w.ledger.gauge_commit_vote(&w.keys_a(), &w.epoch_gauge_a, &snapshot),
        Err(LedgerError::AccountAlreadyExists)
    );
    assert_eq!(w.ledger.epoch_gauge(&w.epoch_gauge_a).unwrap().total_power, 300);
    assert_eq!(w.ledger.epoch_gauge_voter(&snapshot).unwrap().allocated_power, 300);
}

#[test]
fn ledger_commit_then_revert_restores() {
    let mut w = world(1000);
    assert_eq!(w.set_vote(w.keys_a(), 30), Ok(true));
    assert_eq!(w.set_vote(w.keys_b(), 70), Ok(true));
    let snapshot = w.prepare();
    w.ledger.gauge_commit_vote(&w.keys_b(), &w.epoch_gauge_b, &snapshot).unwrap().unwrap();
    let gauge_before = w.ledger.epoch_gauge(&w.epoch_gauge_a);
    let snapshot_before = w.ledger.epoch_gauge_voter(&snapshot);
    w.ledger.gauge_commit_vote(&w.keys_a(), &w.epoch_gauge_a, &snapshot).unwrap().unwrap();
    assert_eq!(w.ledger.epoch_gauge_voter(&snapshot).unwrap().allocated_power, 1000);
    w.ledger.gauge_revert_vote(&w.keys_a(), &w.epoch_gauge_a, &snapshot, w.delegate()).unwrap();
    assert_eq!(w.ledger.epoch_gauge(&w.epoch_gauge_a), gauge_before);
    assert_eq!(w.ledger.epoch_gauge_voter(&snapshot), snapshot_before);
    assert_eq!(w.ledger.epoch_gauge_vote(&w.vote_a, 1), None);
    assert_eq!(w.ledger.epoch_gauge_vote(&w.vote_b, 1).unwrap().allocated_power, 700);
    w.ledger.gauge_commit_vote(&w.keys_a(), &w.epoch_gauge_a, &snapshot).unwrap().unwrap();
    assert_eq!(w.ledger.epoch_gauge(&w.epoch_gauge_a).unwrap().total_power, 300);
}

#[test]
fn ledger_revert_commutes_with_other_commits() {
    let mut w = world(1000);
    assert_eq!(w.set_vote(w.keys_a(), 30), Ok(true));
    assert_eq!(w.set_vote(w.keys_b(), 70), Ok(true));
    let snapshot = w.prepare();
    w.ledger.gauge_commit_vote(&w.keys_a(), &w.epoch_gauge_a, &snapshot).unwrap().unwrap();
    w.ledger.gauge_commit_vote(&w.keys_b(), &w.epoch_gauge_b, &snapshot).unwrap().unwrap();
    w.ledger.gauge_revert_vote(&w.keys_a(), &w.epoch_gauge_a, &snapshot, w.delegate()).unwrap();
    assert_eq!(w.ledger.epoch_gauge_voter(&snapshot).unwrap().allocated_power, 700);
    assert_eq!(w.ledger.epoch_gauge(&w.epoch_gauge_a).unwrap().total_power, 0);
    assert_eq!(w.ledger.epoch_gauge(&w.epoch_gauge_b).unwrap().total_power, 700);
}

#[test]
fn ledger_stale_snapshot_is_reset() {
    let mut w = world(1000);
    assert_eq!(w.set_vote(w.keys_a(), 30), Ok(true));
    let snapshot = w.prepare();
    assert_eq!(w.set_vote(w.keys_b(), 70), Ok(true));
    assert_eq!(
        w.ledger.gauge_commit_vote(&w.keys_a(), &w.epoch_gauge_a, &snapshot),
        Err(LedgerError::Program(ErrorCode::WeightSeqnoChanged))
    );
    let escrow = w.escrow;
    let event = w
        .ledger
        .reset_epoch_gauge_voter(&w.gaugemeister, &w.voter, &snapshot, locker(), escrow)
        .unwrap();
    assert_eq!(event.prev_weight_change_seqno, 1);
    assert_eq!(event.weight_change_seqno, 2);
    let committed = w.ledger.gauge_commit_vote(&w.keys_a(), &w.epoch_gauge_a, &snapshot).unwrap().unwrap();
    assert_eq!(committed.vote_shares_for_next_epoch, 300);
    assert_eq!(
        w.ledger.reset_epoch_gauge_voter(&w.gaugemeister, &w.voter, &snapshot, locker(), escrow),
        Err(LedgerError::Program(ErrorCode::AllocatedPowerMustBeZero))
    );
}

#[test]
fn ledger_disabled_gauge_lets_votes_go() {
    let mut w = world(1000);
    assert_eq!(w.set_vote(w.keys_a(), 30), Ok(true));
    let snapshot = w.prepare();
    w.ledger.gauge_commit_vote(&w.keys_a(), &w.epoch_gauge_a, &snapshot).unwrap().unwrap();
    w.ledger.gauge_disable(&w.gaugemeister, &w.gauge_a, key(2)).unwrap();
    assert!(w.ledger.gauge(&w.gauge_a).unwrap().is_disabled);
    assert_eq!(w.set_vote(w.keys_a(), 40), Err(LedgerError::Program(ErrorCode::CannotVoteGaugeDisabled)));
    w.ledger.gauge_revert_vote(&w.keys_a(), &w.epoch_gauge_a, &snapshot, w.delegate()).unwrap();
    assert_eq!(
        w.ledger.gauge_commit_vote(&w.keys_a(), &w.epoch_gauge_a, &snapshot),
        Err(LedgerError::Program(ErrorCode::CannotCommitGaugeDisabled))
    );
    assert_eq!(w.set_vote(w.keys_a(), 0), Ok(true));
    assert_eq!(w.ledger.gauge_voter(&w.voter).unwrap().total_weight, 0);
}

#[test]
fn ledger_settled_epoch_stays_as_it_is() {
    let mut w = world(1000);
    assert_eq!(w.set_vote(w.keys_a(), 30), Ok(true));
    assert_eq!(w.set_vote(w.keys_b(), 70), Ok(true));
    let snapshot = w.prepare();
    w.ledger.gauge_commit_vote(&w.keys_a(), &w.epoch_gauge_a, &snapshot).unwrap().unwrap();
    let event = w.ledger.trigger_next_epoch(&w.gaugemeister, FIRST_EPOCH_STARTS_AT as i64).unwrap();
    assert_eq!(event.current_rewards_epoch, 1);
    assert_eq!(event.next_epoch_starts_at, FIRST_EPOCH_STARTS_AT + 604_800);
    assert_eq!(
        w.ledger.gauge_commit_vote(&w.keys_b(), &w.epoch_gauge_b, &snapshot),
        Err(LedgerError::Program(ErrorCode::EpochGaugeNotVoting))
    );
    assert_eq!(
        w.ledger.gauge_revert_vote(&w.keys_a(), &w.epoch_gauge_a, &snapshot, w.delegate()),
        Err(LedgerError::AccountNotFound)
    );
    let escrow = w.escrow;
    assert_eq!(
        w.ledger.reset_epoch_gauge_voter(&w.gaugemeister, &w.voter, &snapshot, locker(), escrow),
        Err(LedgerError::Program(ErrorCode::EpochClosed))
    );
    assert_eq!(w.ledger.epoch_gauge(&w.epoch_gauge_a).unwrap().total_power, 300);
    assert_eq!(w.ledger.epoch_gauge_vote(&w.vote_a, 1).unwrap().allocated_power, 300);
}

#[test]
fn ledger_foreman_sets_params() {
    let mut w = world(1000);
    let event = w.ledger.set_gaugemeister_params(&w.gaugemeister, key(2), 100, key(3)).unwrap();
    assert_eq!(event.prev_foreman, key(2));
    assert_eq!(event.new_epoch_duration_seconds, 100);
    let gaugemeister = w.ledger.gaugemeister(&w.gaugemeister).unwrap();
    assert_eq!(gaugemeister.foreman, key(3));
    assert_eq!(gaugemeister.epoch_duration_seconds, 100);
    assert_eq!(
        w.ledger.gauge_enable(&w.gaugemeister, &w.gauge_a, key(2)),
        Err(LedgerError::Program(ErrorCode::UnauthorizedNotForeman))
    );
}

#[test]
fn ledger_delegates_vote_for_the_voter() {
    let mut w = world(1000);
    let delegation = w.ledger.create_gauge_delegation(&w.voter, w.escrow).unwrap();
    assert_eq!(w.ledger.create_gauge_delegation(&w.voter, w.escrow), Err(LedgerError::AccountAlreadyExists));
    assert_eq!(w.ledger.gauge_delegation(&delegation).unwrap().vote_setter, Pubkey::default());
    let setter = Asking { escrow: w.escrow, vote_delegate: key(70) };
    let committer = Asking { escrow: w.escrow, vote_delegate: key(71) };
    assert_eq!(
        w.ledger.delegated_gauge_set_vote(&w.keys_a(), &delegation, setter, 30),
        Err(LedgerError::Program(ErrorCode::KeyMismatch))
    );
    assert_eq!(
        w.ledger.delegation_set_vote_setter(&delegation, &w.voter, setter, key(70)),
        Err(LedgerError::Program(ErrorCode::KeyMismatch))
    );
    assert_eq!(w.ledger.delegation_set_vote_setter(&delegation, &w.voter, w.delegate(), key(70)), Ok(()));
    assert_eq!(w.ledger.delegation_set_vote_committer(&delegation, &w.voter, w.delegate(), key(71)), Ok(()));
    let held = w.ledger.gauge_delegation(&delegation).unwrap();
    assert_eq!(held.gauge_voter, w.voter);
    assert_eq!(held.vote_setter, key(70));
    assert_eq!(held.vote_committer, key(71));
    let changed = w.ledger.delegated_gauge_set_vote(&w.keys_a(), &delegation, setter, 30).unwrap().unwrap();
    assert_eq!(changed.total_weight, 30);
    assert_eq!(changed.vote_delegate, key(70));
    let snapshot = w.prepare();
    assert_eq!(
        w.ledger.delegated_gauge_commit_vote(&w.keys_a(), &w.epoch_gauge_a, &snapshot, &delegation, setter),
        Err(LedgerError::Program(ErrorCode::KeyMismatch))
    );
    let committed = w
        .ledger
        .delegated_gauge_commit_vote(&w.keys_a(), &w.epoch_gauge_a, &snapshot, &delegation, committer)
        .unwrap()
        .unwrap();
    assert_eq!(committed.vote_shares_for_next_epoch, 1000);
    assert_eq!(
        w.ledger.delegated_gauge_revert_vote(&w.keys_a(), &w.epoch_gauge_a, &snapshot, &delegation, setter),
        Err(LedgerError::Program(ErrorCode::KeyMismatch))
    );
    let reverted = w
        .ledger
        .delegated_gauge_revert_vote(&w.keys_a(), &w.epoch_gauge_a, &snapshot, &delegation, committer)
        .unwrap();
    assert_eq!(reverted.subtracted_power, 1000);
    assert_eq!(w.ledger.epoch_gauge_voter(&snapshot).unwrap().allocated_power, 0);
    let again = w.ledger.gauge_commit_vote_v2(&w.keys_a(), &w.epoch_gauge_a, &snapshot, w.delegate());
    assert_eq!(again.map(|event| event.is_some()), Ok(true));
    assert_eq!(
        w.ledger.gauge_commit_vote_v2(&w.keys_a(), &w.epoch_gauge_a, &snapshot, w.delegate()),
        Err(LedgerError::AccountAlreadyExists)
    );
    assert_eq!(w.ledger.epoch_gauge(&w.epoch_gauge_a).unwrap().total_power, 1000);
}

#[test]
fn ledger_never_allocates_more_than_the_power() {
    let mut w = world(10);
    assert_eq!(w.set_vote(w.keys_a(), 1), Ok(true));
    assert_eq!(w.set_vote(w.keys_b(), 2), Ok(true));
    let snapshot = w.prepare();
    w.ledger.gauge_commit_vote(&w.keys_a(), &w.epoch_gauge_a, &snapshot).unwrap().unwrap();
    assert_eq!(w.set_vote(w.keys_a(), 0), Ok(true));
    assert_eq!(
        w.ledger.gauge_commit_vote(&w.keys_b(), &w.epoch_gauge_b, &snapshot),
        Err(LedgerError::Program(ErrorCode::WeightSeqnoChanged))
    );
    let escrow = w.escrow;
    assert_eq!(
        w.ledger.reset_epoch_gauge_voter(&w.gaugemeister, &w.voter, &snapshot, locker(), escrow),
        Err(LedgerError::Program(ErrorCode::AllocatedPowerMustBeZero))
    );
    w.ledger.gauge_revert_vote(&w.keys_a(), &w.epoch_gauge_a, &snapshot, w.delegate()).unwrap();
    w.ledger.reset_epoch_gauge_voter(&w.gaugemeister, &w.voter, &snapshot, locker(), escrow).unwrap();
    let event = w.ledger.gauge_commit_vote(&w.keys_b(), &w.epoch_gauge_b, &snapshot).unwrap().unwrap();
    assert_eq!(event.vote_shares_for_next_epoch, 10);
    let held = w.ledger.epoch_gauge_voter(&snapshot).unwrap();
    assert_eq!(held.allocated_power, 10);
    assert_eq!(held.voting_power, 10);
    assert_eq!(w.ledger.gauge_commit_vote(&w.keys_a(), &w.epoch_gauge_a, &snapshot), Ok(None));
}

#[test]
fn ledger_commit_to_epoch_gauge_of_other_epoch_is_refused() {
    let mut w = world(1000);
    assert_eq!(w.set_vote(w.keys_a(), 100), Ok(true));
    let snapshot = w.prepare();
    let later = w.ledger.create_epoch_gauge(&w.gauge_a, 2).unwrap();
    assert_eq!(
        w.ledger.gauge_commit_vote(&w.keys_a(), &later, &snapshot),
        Err(LedgerError::Program(ErrorCode::EpochGaugeNotVoting))
    );
    assert_eq!(
        w.ledger.gauge_commit_vote_v2(&w.keys_a(), &later, &snapshot, w.delegate()),
        Err(LedgerError::Program(ErrorCode::EpochGaugeNotVoting))
    );
    assert_eq!(w.ledger.epoch_gauge(&later).unwrap().total_power, 0);
    assert_eq!(w.ledger.epoch_gauge(&w.epoch_gauge_a).unwrap().total_power, 0);
    assert_eq!(w.ledger.epoch_gauge_voter(&snapshot).unwrap().allocated_power, 0);
    assert_eq!(w.ledger.epoch_gauge_vote(&w.vote_a, 1), None);
    let event = w.ledger.gauge_commit_vote(&w.keys_a(), &w.epoch_gauge_a, &snapshot).unwrap().unwrap();
    assert_eq!(event.voting_epoch, 1);
    assert_eq!(w.ledger.epoch_gauge(&w.epoch_gauge_a).unwrap().total_power, 1000);
    assert_eq!(w.ledger.epoch_gauge(&later).unwrap().total_power, 0);
}

#[test]
fn ledger_settled_epoch_gauge_takes_no_commit() {
    let mut w = world(1000);
    assert_eq!(w.set_vote(w.keys_a(), 100), Ok(true));
    w.ledger.trigger_next_epoch(&w.gaugemeister, FIRST_EPOCH_STARTS_AT as i64).unwrap();
    let snapshot = w.prepare();
    assert_eq!(w.ledger.epoch_gauge_voter(&snapshot).unwrap().voting_epoch, 2);
    assert_eq!(
        w.ledger.gauge_commit_vote(&w.keys_a(), &w.epoch_gauge_a, &snapshot),
        Err(LedgerError::Program(ErrorCode::EpochGaugeNotVoting))
    );
    assert_eq!(w.ledger.epoch_gauge(&w.epoch_gauge_a).unwrap().total_power, 0);
    assert_eq!(w.ledger.epoch_gauge_voter(&snapshot).unwrap().allocated_power, 0);
}

#[test]
fn ledger_unset_delegation_lets_nobody_act() {
    let mut w = world(1000);
    let delegation = w.ledger.create_gauge_delegation(&w.voter, w.escrow).unwrap();
    let nobody = Asking { escrow: w.escrow, vote_delegate: Pubkey::default() };
    assert_eq!(
        w.ledger.delegated_gauge_set_vote(&w.keys_a(), &delegation, nobody, 30),
        Err(LedgerError::Program(ErrorCode::KeyMismatch))
    );
    assert_eq!(w.set_vote(w.keys_a(), 30), Ok(true));
    let snapshot = w.prepare();
    assert_eq!(
        w.ledger.delegated_gauge_commit_vote(&w.keys_a(), &w.epoch_gauge_a, &snapshot, &delegation, nobody),
        Err(LedgerError::Program(ErrorCode::KeyMismatch))
    );
    w.ledger.gauge_commit_vote(&w.keys_a(), &w.epoch_gauge_a, &snapshot).unwrap().unwrap();
    assert_eq!(
        w.ledger.delegated_gauge_revert_vote(&w.keys_a(), &w.epoch_gauge_a, &snapshot, &delegation, nobody),
        Err(LedgerError::Program(ErrorCode::KeyMismatch))
    );
    assert_eq!(w.ledger.gauge_voter(&w.voter).unwrap().total_weight, 30);
    assert_eq!(w.ledger.epoch_gauge(&w.epoch_gauge_a).unwrap().total_power, 1000);
}
