use gauge::account::Account;
use gauge::error::ErrorCode;
use gauge::gauge::gauge_set_vote;
use gauge::instructions::gauge_set_vote::{handler, GaugeSetVote, SetGaugeVoteEvent};
use gauge::locker::Escrow;
use gauge::pubkey::Pubkey;
use gauge::state::{Gauge, GaugeVote, GaugeVoter, Gaugemeister};

fn key(n: u8) -> Pubkey {
    Pubkey::new_from_array([n; 32])
}

fn gaugemeister() -> Account<Gaugemeister> {
    Account::new(
        key(1),
        Gaugemeister {
            base: key(10),
            bump: 255,
            rewarder: key(11),
            operator: key(12),
            locker: key(13),
            foreman: key(14),
            epoch_duration_seconds: 604_800,
            current_rewards_epoch: 4,
            next_epoch_starts_at: 1_700_000_000,
            locker_token_mint: key(15),
            locker_governor: key(16),
        },
    )
}

/// Accounts in order: a vote of weight `weight` of a voter whose votes
/// weigh `total_weight`, asked for by the escrow's vote delegate.
fn accounts(weight: u32, total_weight: u32) -> GaugeSetVote {
    GaugeSetVote {
        gaugemeister: gaugemeister(),
        gauge: Account::new(key(2), Gauge { gaugemeister: key(1), quarry: key(20), is_disabled: false }),
        gauge_voter: Account::new(
            key(3),
            GaugeVoter {
                gaugemeister: key(1),
                escrow: key(30),
                owner: key(31),
                total_weight,
                weight_change_seqno: 7,
            },
        ),
        gauge_vote: Account::new(
            key(4),
            GaugeVote { gauge_voter: key(3), gauge: key(2), weight, weight_change_seqno: 0 },
        ),
        escrow: Account::new(
            key(30),
            Escrow {
                locker: key(13),
                owner: key(31),
                vote_delegate: key(32),
                amount: 1000,
                escrow_started_at: 1,
                escrow_ends_at: 2_000_000_000,
            },
        ),
        vote_delegate: key(32),
    }
}

#[test]
fn set_vote_moves_total_weight_and_bumps_seqno() {
    let mut a = accounts(30, 100);
    let event = gauge_set_vote(&mut a, 50).unwrap().unwrap();
    assert_eq!(a.gauge_vote.data.weight, 50);
    assert_eq!(a.gauge_voter.data.total_weight, 120);
    assert_eq!(a.gauge_voter.data.weight_change_seqno, 8);
    assert_eq!(
        event,
        SetGaugeVoteEvent {
            gaugemeister: key(1),
            gauge: key(2),
            quarry: key(20),
            gauge_voter_owner: key(31),
            vote_delegate: key(32),
            prev_total_weight: 100,
            total_weight: 120,
            weight_change_seqno: 8,
        }
    );
}

#[test]
fn set_vote_first_weight() {
    let mut a = accounts(0, 0);
    gauge_set_vote(&mut a, 100).unwrap().unwrap();
    assert_eq!(a.gauge_voter.data.total_weight, 100);
    assert_eq!(a.gauge_voter.data.weight_change_seqno, 8);
}

#[test]
fn set_vote_same_weight_changes_nothing() {
    let mut a = accounts(30, 100);
    let before = a;
    assert_eq!(gauge_set_vote(&mut a, 30), Ok(None));
    assert_eq!(a, before);
    assert_eq!(a.gauge_voter.data.weight_change_seqno, 7);
    assert_eq!(a.gauge_voter.data.total_weight, 100);
}

#[test]
fn set_vote_same_zero_weight_on_disabled_gauge_changes_nothing() {
    let mut a = accounts(0, 100);
    a.gauge.data.is_disabled = true;
    let before = a;
    assert_eq!(gauge_set_vote(&mut a, 0), Ok(None));
    assert_eq!(a, before);
}

#[test]
fn set_vote_nonzero_on_disabled_gauge_is_refused() {
    let mut a = accounts(30, 100);
    a.gauge.data.is_disabled = true;
    let before = a;
    assert_eq!(gauge_set_vote(&mut a, 50), Err(ErrorCode::CannotVoteGaugeDisabled));
    assert_eq!(a, before);
    assert_eq!(gauge_set_vote(&mut a, 30), Err(ErrorCode::CannotVoteGaugeDisabled));
    assert_eq!(a, before);
}

#[test]
fn set_vote_zero_on_disabled_gauge_succeeds() {
    let mut a = accounts(30, 100);
    a.gauge.data.is_disabled = true;
    let event = gauge_set_vote(&mut a, 0).unwrap().unwrap();
    assert_eq!(event.prev_total_weight, 100);
    assert_eq!(event.total_weight, 70);
    assert_eq!(a.gauge_vote.data.weight, 0);
    assert_eq!(a.gauge_voter.data.total_weight, 70);
    assert_eq!(a.gauge_voter.data.weight_change_seqno, 8);
}

#[test]
fn set_vote_total_weight_overflow_is_refused() {
    let mut a = accounts(1, u32::MAX - 1);
    let before = a;
    assert_eq!(gauge_set_vote(&mut a, 3), Err(ErrorCode::IntegerOverflow));
    assert_eq!(a, before);
    assert_eq!(gauge_set_vote(&mut a, 2).map(|event| event.is_some()), Ok(true));
    assert_eq!(a.gauge_voter.data.total_weight, u32::MAX);
}

#[test]
fn set_vote_total_weight_underflow_is_refused() {
    let mut a = accounts(30, 10);
    let before = a;
    assert_eq!(gauge_set_vote(&mut a, 0), Err(ErrorCode::IntegerOverflow));
    assert_eq!(a, before);
}

#[test]
fn set_vote_seqno_overflow_is_refused() {
    let mut a = accounts(30, 100);
    a.gauge_voter.data.weight_change_seqno = u64::MAX;
    let before = a;
    assert_eq!(gauge_set_vote(&mut a, 31), Err(ErrorCode::IntegerOverflow));
    assert_eq!(a, before);
    assert_eq!(gauge_set_vote(&mut a, 30), Ok(None));
}

#[test]
fn next_total_weight_is_checked() {
    let a = accounts(30, 100);
    assert_eq!(a.next_total_weight(0), Some(70));
    assert_eq!(a.next_total_weight(45), Some(115));
    assert_eq!(a.next_total_weight(u32::MAX), None);
    assert_eq!(accounts(30, 29).next_total_weight(30), None);
}

#[test]
fn set_vote_validation_checks_every_key() {
    assert_eq!(accounts(30, 100).validate(), Ok(()));
    let mut a = accounts(30, 100);
    a.gauge.data.gaugemeister = key(99);
    assert_eq!(a.validate(), Err(ErrorCode::KeyMismatch));
    let mut a = accounts(30, 100);
    a.gauge_vote.data.gauge = key(99);
    assert_eq!(a.validate(), Err(ErrorCode::KeyMismatch));
    let mut a = accounts(30, 100);
    a.gauge_vote.data.gauge_voter = key(99);
    assert_eq!(a.validate(), Err(ErrorCode::KeyMismatch));
    let mut a = accounts(30, 100);
    a.gauge_voter.data.escrow = key(99);
    assert_eq!(a.validate(), Err(ErrorCode::KeyMismatch));
    let mut a = accounts(30, 100);
    a.vote_delegate = key(99);
    assert_eq!(a.validate_without_delegate(), Ok(()));
    assert_eq!(a.validate(), Err(ErrorCode::KeyMismatch));
    let before = a;
    assert_eq!(gauge_set_vote(&mut a, 50), Err(ErrorCode::KeyMismatch));
    assert_eq!(a, before);
}

#[test]
fn set_vote_handler_does_not_check_the_accounts() {
    let mut a = accounts(30, 100);
    a.vote_delegate = key(99);
    assert_eq!(handler(&mut a, 40).map(|event| event.is_some()), Ok(true));
    assert_eq!(a.gauge_voter.data.total_weight, 110);
}
