use gauge::account::Account;
use gauge::error::ErrorCode;
use gauge::gauge::{prepare_epoch_gauge_voter, reset_epoch_gauge_voter};
use gauge::instructions::prepare_epoch_gauge_voter::{
    compute_power_at_next_epoch, PrepareEpochGaugeVoter, PrepareEpochGaugeVoterEvent,
};
use gauge::instructions::reset_epoch_gauge_voter::{
    ResetEpochGaugeVoter, ResetEpochGaugeVoterEvent,
};
use gauge::locker::{Escrow, Locker, LockerParams};
use gauge::pubkey::Pubkey;
use gauge::state::{EpochGaugeVoter, GaugeVoter, Gaugemeister};

const NEXT_EPOCH: u64 = 1_000_000;

fn key(n: u8) -> Pubkey {
    Pubkey::new_from_array([n; 32])
}

fn gaugemeister(next_epoch_starts_at: u64) -> Account<Gaugemeister> {
    Account::new(
        key(1),
        Gaugemeister {
            base: key(10),
            bump: 255,
            rewarder: key(11),
            operator: key(12),
            locker: key(13),
            foreman: key(14),
            epoch_duration_seconds: 604_800,
            current_rewards_epoch: 4,
            next_epoch_starts_at,
            locker_token_mint: key(15),
            locker_governor: key(16),
        },
    )
}

fn locker() -> Account<Locker> {
    Account::new(
        key(13),
        Locker {
            token_mint: key(15),
            governor: key(16),
            params: LockerParams { max_stake_vote_multiplier: 2, max_stake_duration: 1_000 },
        },
    )
}

/// An escrow of `amount` tokens that unlocks `remaining` seconds after the
/// next epoch starts.
fn escrow(amount: u64, remaining: i64) -> Account<Escrow> {
    Account::new(
        key(30),
        Escrow {
            locker: key(13),
            owner: key(31),
            vote_delegate: key(32),
            amount,
            escrow_started_at: 500,
            escrow_ends_at: NEXT_EPOCH as i64 + remaining,
        },
    )
}

fn voter() -> Account<GaugeVoter> {
    Account::new(
        key(3),
        GaugeVoter {
            gaugemeister: key(1),
            escrow: key(30),
            owner: key(31),
            total_weight: 40,
            weight_change_seqno: 9,
        },
    )
}

fn preparation(amount: u64, remaining: i64) -> PrepareEpochGaugeVoter {
    PrepareEpochGaugeVoter {
        gaugemeister: gaugemeister(NEXT_EPOCH),
        locker: locker(),
        escrow: escrow(amount, remaining),
        gauge_voter: voter(),
        epoch_gauge_voter: Account::new(key(6), EpochGaugeVoter::default()),
    }
}

#[test]
fn power_decays_with_the_time_left() {
    assert_eq!(preparation(1_000_000, 250).power(), Some(500_000));
    assert_eq!(preparation(1_000_000, 1).power(), Some(2_000));
    assert_eq!(preparation(3, 333).power(), Some(1));
}

#[test]
fn power_is_capped_at_the_maximum_duration() {
    assert_eq!(preparation(1_000_000, 1_000).power(), Some(2_000_000));
    assert_eq!(preparation(1_000_000, 50_000).power(), Some(2_000_000));
}

#[test]
fn power_is_zero_outside_the_lock() {
    assert_eq!(preparation(1_000_000, 0).power(), Some(0));
    assert_eq!(preparation(1_000_000, -5).power(), Some(0));
    let mut early = preparation(1_000_000, 250);
    early.escrow.data.escrow_started_at = NEXT_EPOCH as i64 + 1;
    assert_eq!(early.power(), Some(0));
    let mut unlocked = preparation(1_000_000, 250);
    unlocked.escrow.data.escrow_started_at = 0;
    assert_eq!(unlocked.power(), Some(0));
}

#[test]
fn power_fails_where_the_arithmetic_does() {
    assert_eq!(preparation(u64::MAX, 250).power(), None);
    let mut late = preparation(1_000_000, 250);
    late.gaugemeister.data.next_epoch_starts_at = i64::MAX as u64 + 1;
    assert_eq!(late.power(), None);
    let mut at_zero = preparation(1_000_000, 250);
    at_zero.gaugemeister.data.next_epoch_starts_at = 0;
    assert_eq!(at_zero.power(), None);
    let mut no_duration = preparation(1_000_000, 250);
    no_duration.locker.data.params.max_stake_duration = 0;
    assert_eq!(no_duration.power(), None);
    assert_eq!(
        compute_power_at_next_epoch(&gaugemeister(NEXT_EPOCH).data, &locker().data, &escrow(8, 500).data),
        Some(8)
    );
}

#[test]
fn snapshot_is_of_the_voting_epoch() {
    let mut a = preparation(1_000_000, 250);
    let event = prepare_epoch_gauge_voter(&mut a, 255).unwrap();
    assert_eq!(
        event,
        PrepareEpochGaugeVoterEvent {
            gaugemeister: key(1),
            rewarder: key(11),
            locker: key(13),
            gauge_voter_owner: key(31),
            voting_epoch: 5,
            voting_power: 500_000,
            weight_change_seqno: 9,
        }
    );
    assert_eq!(
        a.epoch_gauge_voter,
        Account::new(
            key(6),
            EpochGaugeVoter {
                gauge_voter: key(3),
                voting_epoch: 5,
                weight_change_seqno: 9,
                voting_power: 500_000,
                allocated_power: 0,
            }
        )
    );
}

#[test]
fn snapshot_with_given_power() {
    let mut a = preparation(1_000_000, 250);
    assert_eq!(a.snapshot(Some(77)).map(|event| event.voting_power), Ok(77));
    assert_eq!(a.epoch_gauge_voter.data.voting_power, 77);
    let mut a = preparation(1_000_000, 250);
    let before = a;
    assert_eq!(a.snapshot(None), Err(ErrorCode::IntegerOverflow));
    assert_eq!(a, before);
}

#[test]
fn snapshot_without_power_is_refused() {
    let mut a = preparation(u64::MAX, 250);
    let before = a;
    assert_eq!(prepare_epoch_gauge_voter(&mut a, 255), Err(ErrorCode::IntegerOverflow));
    assert_eq!(a, before);
}

#[test]
fn snapshot_without_voting_epoch_is_refused() {
    let mut a = preparation(1_000_000, 250);
    a.gaugemeister.data.current_rewards_epoch = u32::MAX;
    let before = a;
    assert_eq!(prepare_epoch_gauge_voter(&mut a, 255), Err(ErrorCode::IntegerOverflow));
    assert_eq!(a, before);
}

#[test]
fn snapshot_validation_checks_every_key() {
    assert_eq!(preparation(1, 1).validate(), Ok(()));
    let mut a = preparation(1, 1);
    a.gaugemeister.data.locker = key(99);
    assert_eq!(a.validate(), Err(ErrorCode::KeyMismatch));
    let mut a = preparation(1, 1);
    a.gauge_voter.data.escrow = key(99);
    assert_eq!(a.validate(), Err(ErrorCode::KeyMismatch));
    let mut a = preparation(1, 1);
    a.escrow.data.locker = key(99);
    assert_eq!(a.validate(), Err(ErrorCode::KeyMismatch));
    let mut a = preparation(1, 1);
    a.escrow.data.owner = key(99);
    let before = a;
    assert_eq!(prepare_epoch_gauge_voter(&mut a, 255), Err(ErrorCode::KeyMismatch));
    assert_eq!(a, before);
}

fn resetting(allocated_power: u64) -> ResetEpochGaugeVoter {
    ResetEpochGaugeVoter {
        gaugemeister: gaugemeister(NEXT_EPOCH),
        locker: locker(),
        escrow: escrow(1_000_000, 250),
        gauge_voter: voter(),
        epoch_gauge_voter: Account::new(
            key(6),
            EpochGaugeVoter {
                gauge_voter: key(3),
                voting_epoch: 5,
                weight_change_seqno: 7,
                voting_power: 123,
                allocated_power,
            },
        ),
    }
}

#[test]
fn reset_takes_power_and_sequence_number_anew() {
    let mut a = resetting(0);
    let event = reset_epoch_gauge_voter(&mut a).unwrap();
    assert_eq!(
        event,
        ResetEpochGaugeVoterEvent {
            gaugemeister: key(1),
            locker: key(13),
            gauge_voter_owner: key(31),
            prev_voting_power: 123,
            voting_power: 500_000,
            prev_weight_change_seqno: 7,
            weight_change_seqno: 9,
        }
    );
    assert_eq!(
        a.epoch_gauge_voter.data,
        EpochGaugeVoter {
            gauge_voter: key(3),
            voting_epoch: 5,
            weight_change_seqno: 9,
            voting_power: 500_000,
            allocated_power: 0,
        }
    );
}

#[test]
fn reset_with_allocated_power_is_refused() {
    let mut a = resetting(1);
    let before = a;
    assert_eq!(reset_epoch_gauge_voter(&mut a), Err(ErrorCode::AllocatedPowerMustBeZero));
    assert_eq!(a.reset(Some(5)), Err(ErrorCode::AllocatedPowerMustBeZero));
    assert_eq!(a, before);
}

#[test]
fn reset_of_other_epoch_is_refused() {
    let mut a = resetting(0);
    a.epoch_gauge_voter.data.voting_epoch = 4;
    let before = a;
    assert_eq!(reset_epoch_gauge_voter(&mut a), Err(ErrorCode::EpochClosed));
    assert_eq!(a, before);
}

#[test]
fn reset_checks_the_keys_and_the_power() {
    let mut a = resetting(0);
    a.epoch_gauge_voter.data.gauge_voter = key(99);
    assert_eq!(reset_epoch_gauge_voter(&mut a), Err(ErrorCode::KeyMismatch));
    let mut a = resetting(0);
    a.escrow.data.owner = key(99);
    assert_eq!(reset_epoch_gauge_voter(&mut a), Err(ErrorCode::KeyMismatch));
    let mut a = resetting(0);
    a.escrow.data.amount = u64::MAX;
    let before = a;
    assert_eq!(reset_epoch_gauge_voter(&mut a), Err(ErrorCode::IntegerOverflow));
    assert_eq!(a, before);
    let mut a = resetting(0);
    a.gaugemeister.data.current_rewards_epoch = u32::MAX;
    assert_eq!(reset_epoch_gauge_voter(&mut a), Err(ErrorCode::IntegerOverflow));
}
