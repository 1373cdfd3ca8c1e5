use gauge::account::Account;
use gauge::error::ErrorCode;
use gauge::gauge::{gauge_commit_vote, gauge_revert_vote};
use gauge::instructions::gauge_commit_vote::GaugeCommitVote;
use gauge::instructions::gauge_revert_vote::{GaugeRevertVote, RevertGaugeVoteEvent};
use gauge::locker::Escrow;
use gauge::pubkey::Pubkey;
use gauge::state::{
    EpochGauge, EpochGaugeVote, EpochGaugeVoter, Gauge, GaugeVote, GaugeVoter, Gaugemeister,
};

fn key(n: u8) -> Pubkey {
    Pubkey::new_from_array([n; 32])
}

/// Accounts in order, of the voting epoch 5: the epoch gauge vote holds
/// `power`; the epoch gauge holds `total_power` and the snapshot has
/// `allocated_power` allocated.
fn accounts(power: u64, total_power: u64, allocated_power: u64) -> GaugeRevertVote {
    let (vote_address, _) = EpochGaugeVote::find_program_address(&key(4), 5).unwrap();
    GaugeRevertVote {
        gaugemeister: Account::new(
            key(1),
            Gaugemeister {
                base: key(10),
                bump: 255,
                rewarder: key(11),
                operator: key(12),
                locker: key(13),
                foreman: key(14),
                epoch_duration_seconds: 604_800,
                current_rewards_epoch: 4,
                next_epoch_starts_at: 1_700_000_000,
                locker_token_mint: key(15),
                locker_governor: key(16),
            },
        ),
        gauge: Account::new(key(2), Gauge { gaugemeister: key(1), quarry: key(20), is_disabled: false }),
        gauge_voter: Account::new(
            key(3),
            GaugeVoter {
                gaugemeister: key(1),
                escrow: key(30),
                owner: key(31),
                total_weight: 100,
                weight_change_seqno: 7,
            },
        ),
        gauge_vote: Account::new(
            key(4),
            GaugeVote { gauge_voter: key(3), gauge: key(2), weight: 30, weight_change_seqno: 0 },
        ),
        epoch_gauge: Account::new(key(5), EpochGauge { gauge: key(2), voting_epoch: 5, total_power }),
        epoch_gauge_voter: Account::new(
            key(6),
            EpochGaugeVoter {
                gauge_voter: key(3),
                voting_epoch: 5,
                weight_change_seqno: 7,
                voting_power: 1000,
                allocated_power,
            },
        ),
        escrow: Account::new(
            key(30),
            Escrow {
                locker: key(13),
                owner: key(31),
                vote_delegate: key(32),
                amount: 1000,
                escrow_started_at: 1,
                escrow_ends_at: 2_000_000_000,
            },
        ),
        vote_delegate: key(32),
        epoch_gauge_vote: Account::new(vote_address, EpochGaugeVote { allocated_power: power }),
    }
}

#[test]
fn revert_takes_the_power_out_of_both_accumulators() {
    let mut a = accounts(300, 1000, 700);
    let event = gauge_revert_vote(&mut a).unwrap();
    assert_eq!(
        event,
        RevertGaugeVoteEvent {
            gaugemeister: key(1),
            gauge: key(2),
            quarry: key(20),
            gauge_voter_owner: key(31),
            voting_epoch: 5,
            subtracted_power: 300,
            updated_allocated_power: 400,
            updated_total_power: 700,
        }
    );
    assert_eq!(a.epoch_gauge.data.total_power, 700);
    assert_eq!(a.epoch_gauge_voter.data.allocated_power, 400);
}

#[test]
fn revert_succeeds_on_disabled_gauge() {
    let mut a = accounts(300, 300, 300);
    a.gauge.data.is_disabled = true;
    assert_eq!(a.validate(), Ok(()));
    let event = gauge_revert_vote(&mut a).unwrap();
    assert_eq!(event.updated_total_power, 0);
    assert_eq!(event.updated_allocated_power, 0);
}

#[test]
fn revert_does_not_check_the_sequence_number() {
    let mut a = accounts(300, 300, 300);
    a.gauge_voter.data.weight_change_seqno = 9;
    assert_eq!(gauge_revert_vote(&mut a).map(|event| event.subtracted_power), Ok(300));
}

#[test]
fn revert_underflow_is_refused() {
    let mut a = accounts(300, 1000, 299);
    let before = a;
    assert_eq!(gauge_revert_vote(&mut a), Err(ErrorCode::IntegerOverflow));
    assert_eq!(a, before);
    let mut a = accounts(300, 299, 1000);
    let before = a;
    assert_eq!(gauge_revert_vote(&mut a), Err(ErrorCode::IntegerOverflow));
    assert_eq!(a, before);
}

#[test]
fn revert_of_other_epoch_is_refused() {
    let mut a = accounts(300, 1000, 700);
    a.epoch_gauge.data.voting_epoch = 4;
    assert_eq!(gauge_revert_vote(&mut a), Err(ErrorCode::EpochGaugeNotVoting));
    let mut a = accounts(300, 1000, 700);
    a.epoch_gauge_voter.data.voting_epoch = 6;
    assert_eq!(gauge_revert_vote(&mut a), Err(ErrorCode::EpochGaugeNotVoting));
    let mut a = accounts(300, 1000, 700);
    a.gaugemeister.data.current_rewards_epoch = 5;
    let before = a;
    assert_eq!(gauge_revert_vote(&mut a), Err(ErrorCode::EpochGaugeNotVoting));
    assert_eq!(a, before);
}

#[test]
fn revert_without_voting_epoch_is_refused() {
    let mut a = accounts(300, 1000, 700);
    a.gaugemeister.data.current_rewards_epoch = u32::MAX;
    assert_eq!(gauge_revert_vote(&mut a), Err(ErrorCode::IntegerOverflow));
}

#[test]
fn revert_validation_checks_every_key() {
    assert_eq!(accounts(300, 1000, 700).validate(), Ok(()));
    let mut a = accounts(300, 1000, 700);
    a.gauge.data.gaugemeister = key(99);
    assert_eq!(a.validate(), Err(ErrorCode::KeyMismatch));
    let mut a = accounts(300, 1000, 700);
    a.epoch_gauge.data.gauge = key(99);
    assert_eq!(a.validate(), Err(ErrorCode::KeyMismatch));
    let mut a = accounts(300, 1000, 700);
    a.epoch_gauge_voter.data.gauge_voter = key(99);
    assert_eq!(a.validate(), Err(ErrorCode::KeyMismatch));
    let mut a = accounts(300, 1000, 700);
    a.gauge_vote.data.gauge_voter = key(99);
    assert_eq!(a.validate(), Err(ErrorCode::KeyMismatch));
    let mut a = accounts(300, 1000, 700);
    a.gauge_vote.data.gauge = key(99);
    assert_eq!(a.validate(), Err(ErrorCode::KeyMismatch));
    let mut a = accounts(300, 1000, 700);
    a.gauge_voter.data.escrow = key(99);
    assert_eq!(a.validate(), Err(ErrorCode::KeyMismatch));
    let mut a = accounts(300, 1000, 700);
    a.vote_delegate = key(99);
    assert_eq!(a.validate_without_delegate(), Ok(()));
    assert_eq!(a.validate(), Err(ErrorCode::KeyMismatch));
}

#[test]
fn revert_checks_the_address_of_the_epoch_gauge_vote() {
    let mut a = accounts(300, 1000, 700);
    a.epoch_gauge_vote.key = key(7);
    let before = a;
    assert_eq!(gauge_revert_vote(&mut a), Err(ErrorCode::KeyMismatch));
    assert_eq!(a, before);
    let a = accounts(300, 1000, 700);
    let (other_epoch, _) = EpochGaugeVote::find_program_address(&key(4), 6).unwrap();
    let (other_vote, _) = EpochGaugeVote::find_program_address(&key(8), 5).unwrap();
    assert_eq!(a.validate_with_address(Some(a.epoch_gauge_vote.key)), Ok(()));
    assert_eq!(a.validate_with_address(Some(other_epoch)), Err(ErrorCode::KeyMismatch));
    assert_eq!(a.validate_with_address(Some(other_vote)), Err(ErrorCode::KeyMismatch));
    assert_eq!(a.validate_with_address(None), Err(ErrorCode::KeyMismatch));
}

#[test]
fn revert_undoes_commit() {
    let a = accounts(0, 500, 200);
    let mut commit = GaugeCommitVote {
        gaugemeister: a.gaugemeister,
        gauge: a.gauge,
        gauge_voter: a.gauge_voter,
        gauge_vote: a.gauge_vote,
        epoch_gauge: a.epoch_gauge,
        epoch_gauge_voter: a.epoch_gauge_voter,
        epoch_gauge_vote: a.epoch_gauge_vote,
    };
    let committed = gauge_commit_vote(&mut commit, 255).unwrap().unwrap();
    assert_eq!(committed.vote_shares_for_next_epoch, 300);
    assert_eq!(commit.epoch_gauge.data.total_power, 800);
    assert_eq!(commit.epoch_gauge_voter.data.allocated_power, 500);
    let mut revert = GaugeRevertVote {
        epoch_gauge: commit.epoch_gauge,
        epoch_gauge_voter: commit.epoch_gauge_voter,
        epoch_gauge_vote: commit.epoch_gauge_vote,
        ..a
    };
    gauge_revert_vote(&mut revert).unwrap();
    assert_eq!(revert.epoch_gauge, a.epoch_gauge);
    assert_eq!(revert.epoch_gauge_voter, a.epoch_gauge_voter);
}
