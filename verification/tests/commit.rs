use gauge::account::Account;
use gauge::error::ErrorCode;
use gauge::instructions::gauge_commit_vote::{compute_vote_shares, GaugeCommitVote};
use gauge::pubkey::Pubkey;
use gauge::state::{
    EpochGauge, EpochGaugeVote, EpochGaugeVoter, Gauge, GaugeVote, GaugeVoter, Gaugemeister,
};

fn key(n: u8) -> Pubkey {
    Pubkey::new_from_array([n; 32])
}

fn commit_accounts(weight: u32, total_weight: u32, voting_power: u64) -> GaugeCommitVote {
    GaugeCommitVote {
        gaugemeister: Account::new(
            key(1),
            Gaugemeister {
                base: key(10),
                bump: 255,
                rewarder: key(11),
                operator: key(12),
                locker: key(13),
                foreman: key(14),
                epoch_duration_seconds: 604_800,
                current_rewards_epoch: 4,
                next_epoch_starts_at: 1_700_000_000,
                locker_token_mint: key(15),
                locker_governor: key(16),
            },
        ),
        gauge: Account::new(
            key(2),
            Gauge { gaugemeister: key(1), quarry: key(20), is_disabled: false },
        ),
        gauge_voter: Account::new(
            key(3),
            GaugeVoter {
                gaugemeister: key(1),
                escrow: key(30),
                owner: key(31),
                total_weight,
                weight_change_seqno: 7,
            },
        ),
        gauge_vote: Account::new(
            key(4),
            GaugeVote { gauge_voter: key(3), gauge: key(2), weight, weight_change_seqno: 0 },
        ),
        epoch_gauge: Account::new(
            key(5),
            EpochGauge { gauge: key(2), voting_epoch: 5, total_power: 0 },
        ),
        epoch_gauge_voter: Account::new(
            key(6),
            EpochGaugeVoter {
                gauge_voter: key(3),
                voting_epoch: 5,
                weight_change_seqno: 7,
                voting_power,
                allocated_power: 0,
            },
        ),
        epoch_gauge_vote: Account::new(key(7), EpochGaugeVote { allocated_power: 0 }),
    }
}

#[test]
fn shares_are_rounded_down() {
    assert_eq!(compute_vote_shares(10, 1, 3), Some(3));
    assert_eq!(compute_vote_shares(10, 2, 3), Some(6));
    assert_eq!(compute_vote_shares(1000, 100, 100), Some(1000));
}

#[test]
fn shares_of_a_vote_without_weight_are_zero() {
    assert_eq!(compute_vote_shares(1000, 0, 0), Some(0));
    assert_eq!(compute_vote_shares(1000, 0, 50), Some(0));
}

#[test]
fn shares_fail_without_total_weight_or_beyond_64_bits() {
    assert_eq!(compute_vote_shares(1000, 5, 0), None);
    assert_eq!(compute_vote_shares(u64::MAX, 2, 1), None);
    assert_eq!(compute_vote_shares(u64::MAX, u32::MAX, u32::MAX), Some(u64::MAX));
}

#[test]
fn basic_vote_and_commit() {
    let mut accounts = commit_accounts(100, 100, 1000);
    assert_eq!(accounts.validate(), Ok(()));
    let event = gauge::gauge::gauge_commit_vote(&mut accounts, 254).unwrap().unwrap();
    assert_eq!(event.vote_shares_for_next_epoch, 1000);
    assert_eq!(event.updated_allocated_power, 1000);
    assert_eq!(event.updated_total_power, 1000);
    assert_eq!(accounts.epoch_gauge.data.total_power, 1000);
    assert_eq!(accounts.epoch_gauge_voter.data.allocated_power, 1000);
    assert_eq!(accounts.epoch_gauge_vote.data.allocated_power, 1000);
}

#[test]
fn commit_on_disabled_gauge_is_refused() {
    let mut accounts = commit_accounts(100, 100, 1000);
    accounts.gauge.data.is_disabled = true;
    let before = accounts;
    assert_eq!(
        gauge::gauge::gauge_commit_vote(&mut accounts, 254),
        Err(ErrorCode::CannotCommitGaugeDisabled)
    );
    assert_eq!(accounts, before);
}

#[test]
fn two_gauges_split_without_loss() {
    let mut a = commit_accounts(30, 100, 1000);
    let first = gauge::gauge::gauge_commit_vote(&mut a, 254).unwrap().unwrap();
    assert_eq!(first.vote_shares_for_next_epoch, 300);
    let mut b = commit_accounts(70, 100, 1000);
    b.epoch_gauge_voter = a.epoch_gauge_voter;
    let second = gauge::gauge::gauge_commit_vote(&mut b, 254).unwrap().unwrap();
    assert_eq!(second.vote_shares_for_next_epoch, 700);
    assert_eq!(second.updated_allocated_power, 1000);
    assert_eq!(b.epoch_gauge_voter.data.allocated_power, b.epoch_gauge_voter.data.voting_power);
}

#[test]
fn rounding_loss_is_not_allocated() {
    let mut a = commit_accounts(1, 3, 10);
    let first = gauge::gauge::gauge_commit_vote(&mut a, 254).unwrap().unwrap();
    assert_eq!(first.vote_shares_for_next_epoch, 3);
    let mut b = commit_accounts(2, 3, 10);
    b.epoch_gauge_voter = a.epoch_gauge_voter;
    let second = gauge::gauge::gauge_commit_vote(&mut b, 254).unwrap().unwrap();
    assert_eq!(second.vote_shares_for_next_epoch, 6);
    assert_eq!(second.updated_allocated_power, 9);
}

#[test]
fn commit_of_vote_without_weight_changes_nothing() {
    let mut accounts = commit_accounts(0, 100, 1000);
    let before = accounts;
    assert_eq!(gauge::gauge::gauge_commit_vote(&mut accounts, 254), Ok(None));
    assert_eq!(accounts, before);
    let mut accounts = commit_accounts(0, 0, 1000);
    let before = accounts;
    assert_eq!(gauge::gauge::gauge_commit_vote(&mut accounts, 254), Ok(None));
    assert_eq!(accounts, before);
}

#[test]
fn commit_of_weight_without_power_is_recorded() {
    let mut accounts = commit_accounts(1, 100, 50);
    let event = gauge::gauge::gauge_commit_vote(&mut accounts, 254).unwrap().unwrap();
    assert_eq!(event.vote_shares_for_next_epoch, 0);
    assert_eq!(event.updated_allocated_power, 0);
    assert_eq!(event.updated_total_power, 0);
}

#[test]
fn commit_without_total_weight_is_refused() {
    let mut accounts = commit_accounts(5, 0, 1000);
    let before = accounts;
    assert_eq!(gauge::gauge::gauge_commit_vote(&mut accounts, 254), Err(ErrorCode::IntegerOverflow));
    assert_eq!(accounts, before);
}

#[test]
fn commit_beyond_the_accumulators_is_refused() {
    let mut accounts = commit_accounts(100, 100, 1000);
    accounts.epoch_gauge_voter.data.allocated_power = u64::MAX - 999;
    let before = accounts;
    assert_eq!(gauge::gauge::gauge_commit_vote(&mut accounts, 254), Err(ErrorCode::IntegerOverflow));
    assert_eq!(accounts, before);
    let mut accounts = commit_accounts(100, 100, 1000);
    accounts.epoch_gauge.data.total_power = u64::MAX - 999;
    let before = accounts;
    assert_eq!(gauge::gauge::gauge_commit_vote(&mut accounts, 254), Err(ErrorCode::IntegerOverflow));
    assert_eq!(accounts, before);
    accounts.epoch_gauge.data.total_power = u64::MAX - 1000;
    let event = gauge::gauge::gauge_commit_vote(&mut accounts, 254).unwrap().unwrap();
    assert_eq!(event.updated_total_power, u64::MAX);
}

#[test]
fn commit_against_stale_snapshot_is_refused() {
    let mut accounts = commit_accounts(100, 100, 1000);
    accounts.gauge_voter.data.weight_change_seqno = 8;
    assert_eq!(
        gauge::gauge::gauge_commit_vote(&mut accounts, 254),
        Err(ErrorCode::WeightSeqnoChanged)
    );
}

#[test]
fn commit_outside_the_voting_epoch_is_refused() {
    let mut accounts = commit_accounts(100, 100, 1000);
    accounts.epoch_gauge_voter.data.voting_epoch = 4;
    assert_eq!(
        gauge::gauge::gauge_commit_vote(&mut accounts, 254),
        Err(ErrorCode::EpochGaugeNotVoting)
    );
    let mut accounts = commit_accounts(100, 100, 1000);
    accounts.gaugemeister.data.current_rewards_epoch = 5;
    assert_eq!(
        gauge::gauge::gauge_commit_vote(&mut accounts, 254),
        Err(ErrorCode::EpochGaugeNotVoting)
    );
    let mut accounts = commit_accounts(100, 100, 1000);
    accounts.gaugemeister.data.current_rewards_epoch = u32::MAX;
    assert_eq!(gauge::gauge::gauge_commit_vote(&mut accounts, 254), Err(ErrorCode::IntegerOverflow));
}

#[test]
fn commit_validation_checks_every_key() {
    let mut accounts = commit_accounts(100, 100, 1000);
    accounts.gauge.data.gaugemeister = key(99);
    assert_eq!(accounts.validate(), Err(ErrorCode::KeyMismatch));
    let mut accounts = commit_accounts(100, 100, 1000);
    accounts.gauge_vote.data.gauge = key(99);
    assert_eq!(accounts.validate(), Err(ErrorCode::KeyMismatch));
    let mut accounts = commit_accounts(100, 100, 1000);
    accounts.gauge_vote.data.gauge_voter = key(99);
    assert_eq!(accounts.validate(), Err(ErrorCode::KeyMismatch));
    let mut accounts = commit_accounts(100, 100, 1000);
    accounts.epoch_gauge.data.gauge = key(99);
    assert_eq!(accounts.validate(), Err(ErrorCode::KeyMismatch));
    let mut accounts = commit_accounts(100, 100, 1000);
    accounts.epoch_gauge_voter.data.gauge_voter = key(99);
    accounts.gauge.data.is_disabled = true;
    assert_eq!(accounts.validate(), Err(ErrorCode::KeyMismatch));
}

#[test]
fn vote_shares_of_the_accounts() {
    assert_eq!(commit_accounts(1, 3, 10).vote_shares_for_next_epoch(), Some(3));
    assert_eq!(commit_accounts(7, 0, 10).vote_shares_for_next_epoch(), None);
    assert_eq!(commit_accounts(0, 0, 10).vote_shares_for_next_epoch(), Some(0));
}

#[test]
fn commit_to_epoch_gauge_of_other_epoch_is_refused() {
    let mut accounts = commit_accounts(100, 100, 1000);
    accounts.epoch_gauge.data.voting_epoch = 6;
    let before = accounts;
    assert_eq!(accounts.validate(), Err(ErrorCode::EpochGaugeNotVoting));
    assert_eq!(
        gauge::gauge::gauge_commit_vote(&mut accounts, 254),
        Err(ErrorCode::EpochGaugeNotVoting)
    );
    assert_eq!(accounts, before);
    accounts.epoch_gauge.data.voting_epoch = 4;
    assert_eq!(
        gauge::gauge::gauge_commit_vote(&mut accounts, 254),
        Err(ErrorCode::EpochGaugeNotVoting)
    );
    assert_eq!(accounts.epoch_gauge.data.total_power, 0);
    assert_eq!(accounts.epoch_gauge_voter.data.allocated_power, 0);
    accounts.epoch_gauge.data.voting_epoch = 5;
    assert_eq!(gauge::gauge::gauge_commit_vote(&mut accounts, 254).map(|event| event.is_some()), Ok(true));
}
