use gauge::account::Account;
use gauge::error::ErrorCode;
use gauge::gauge::{
    create_epoch_gauge, create_gauge, create_gauge_vote, create_gauge_voter, create_gaugemeister,
    gauge_disable, gauge_enable, set_gaugemeister_params, trigger_next_epoch,
};
use gauge::instructions::create_epoch_gauge::CreateEpochGauge;
use gauge::instructions::create_gauge::{CreateGauge, GaugeCreateEvent};
use gauge::instructions::create_gauge_vote::{CreateGaugeVote, GaugeVoteCreateEvent};
use gauge::instructions::create_gauge_voter::CreateGaugeVoter;
use gauge::instructions::create_gaugemeister::{CreateGaugemeister, GaugemeisterCreateEvent};
use gauge::instructions::gauge_disable::{GaugeDisable, GaugeDisableEvent};
use gauge::instructions::gauge_enable::{GaugeEnable, GaugeEnableEvent};
use gauge::instructions::set_gaugemeister_params::{
    SetGaugemeisterParams, SetGaugemeisterParamsEvent,
};
use gauge::instructions::trigger_next_epoch::{TriggerNextEpoch, TriggerNextEpochEvent};
use gauge::locker::{Escrow, Locker, LockerParams};
use gauge::pubkey::Pubkey;
use gauge::quarry::{Operator, Quarry};
use gauge::state::{EpochGauge, Gauge, GaugeVote, GaugeVoter, Gaugemeister};

fn key(n: u8) -> Pubkey {
    Pubkey::new_from_array([n; 32])
}

fn gaugemeister(current_rewards_epoch: u32, next_epoch_starts_at: u64) -> Account<Gaugemeister> {
    Account::new(
        key(1),
        Gaugemeister {
            base: key(10),
            bump: 255,
            rewarder: key(11),
            operator: key(12),
            locker: key(13),
            foreman: key(14),
            epoch_duration_seconds: 604_800,
            current_rewards_epoch,
            next_epoch_starts_at,
            locker_token_mint: key(15),
            locker_governor: key(16),
        },
    )
}

fn creation() -> CreateGaugemeister {
    CreateGaugemeister {
        gaugemeister: Account::new(key(1), Gaugemeister::default()),
        base: key(10),
        operator: Account::new(key(12), Operator { rewarder: key(11) }),
        locker: Account::new(
            key(13),
            Locker {
                token_mint: key(15),
                governor: key(16),
                params: LockerParams { max_stake_vote_multiplier: 10, max_stake_duration: 1000 },
            },
        ),
    }
}

#[test]
fn gaugemeister_starts_at_epoch_zero() {
    let mut a = creation();
    assert_eq!(a.validate(), Ok(()));
    let event = create_gaugemeister(&mut a, 255, key(14), 604_800, 2_000, 1_999).unwrap();
    assert_eq!(
        event,
        GaugemeisterCreateEvent {
            gaugemeister: key(1),
            operator: key(12),
            locker: key(13),
            foreman: key(14),
            first_rewards_epoch: 2_000,
        }
    );
    assert_eq!(a.gaugemeister, gaugemeister(0, 2_000));
    assert_eq!(a.gaugemeister.data.voting_epoch(), Ok(1));
}

#[test]
fn gaugemeister_must_start_in_the_future() {
    let mut a = creation();
    let before = a;
    assert_eq!(
        create_gaugemeister(&mut a, 255, key(14), 604_800, 2_000, 2_000),
        Err(ErrorCode::InvariantFailed)
    );
    assert_eq!(
        create_gaugemeister(&mut a, 255, key(14), 604_800, 2_000, 2_001),
        Err(ErrorCode::InvariantFailed)
    );
    assert_eq!(a, before);
}

#[test]
fn gaugemeister_at_negative_time_is_refused() {
    let mut a = creation();
    let before = a;
    assert_eq!(
        create_gaugemeister(&mut a, 255, key(14), 604_800, 2_000, -1),
        Err(ErrorCode::IntegerOverflow)
    );
    assert_eq!(a, before);
    assert_eq!(create_gaugemeister(&mut a, 255, key(14), 604_800, 2_000, 0).map(|_| ()), Ok(()));
}

#[test]
fn voting_epoch_is_one_ahead() {
    assert_eq!(gaugemeister(0, 10).data.voting_epoch(), Ok(1));
    assert_eq!(gaugemeister(41, 10).data.voting_epoch(), Ok(42));
    assert_eq!(gaugemeister(u32::MAX - 1, 10).data.voting_epoch(), Ok(u32::MAX));
    assert_eq!(gaugemeister(u32::MAX, 10).data.voting_epoch(), Err(ErrorCode::IntegerOverflow));
}

#[test]
fn next_epoch_follows_the_schedule() {
    let mut a = TriggerNextEpoch { gaugemeister: gaugemeister(4, 1_000_000) };
    let event = trigger_next_epoch(&mut a, 5_000_000).unwrap();
    assert_eq!(
        event,
        TriggerNextEpochEvent {
            gaugemeister: key(1),
            current_rewards_epoch: 5,
            next_epoch_starts_at: 1_604_800,
        }
    );
    assert_eq!(a.gaugemeister, gaugemeister(5, 1_604_800));
    assert_eq!(a.gaugemeister.data.voting_epoch(), Ok(6));
}

#[test]
fn next_epoch_at_its_start() {
    let mut a = TriggerNextEpoch { gaugemeister: gaugemeister(4, 1_000_000) };
    assert_eq!(a.validate(1_000_000), Ok(()));
    assert_eq!(trigger_next_epoch(&mut a, 1_000_000).map(|event| event.current_rewards_epoch), Ok(5));
}

#[test]
fn next_epoch_before_its_start_is_refused() {
    let mut a = TriggerNextEpoch { gaugemeister: gaugemeister(4, 1_000_000) };
    let before = a;
    assert_eq!(trigger_next_epoch(&mut a, 999_999), Err(ErrorCode::NextEpochNotReached));
    assert_eq!(trigger_next_epoch(&mut a, -5), Err(ErrorCode::IntegerOverflow));
    assert_eq!(a, before);
}

#[test]
fn next_epoch_beyond_the_numbers_is_refused() {
    let mut a = TriggerNextEpoch { gaugemeister: gaugemeister(u32::MAX, 1_000_000) };
    let before = a;
    assert_eq!(trigger_next_epoch(&mut a, 1_000_000), Err(ErrorCode::IntegerOverflow));
    assert_eq!(a, before);
    let mut a = TriggerNextEpoch { gaugemeister: gaugemeister(4, u64::MAX - 604_799) };
    let before = a;
    assert_eq!(trigger_next_epoch(&mut a, i64::MAX), Err(ErrorCode::NextEpochNotReached));
    assert_eq!(gauge::instructions::trigger_next_epoch::handler(&mut a), Err(ErrorCode::IntegerOverflow));
    assert_eq!(a, before);
}

#[test]
fn foreman_sets_params() {
    let mut a = SetGaugemeisterParams { gaugemeister: gaugemeister(4, 1_000_000), foreman: key(14) };
    let event = set_gaugemeister_params(&mut a, 86_400, key(77)).unwrap();
    assert_eq!(
        event,
        SetGaugemeisterParamsEvent {
            gaugemeister: key(1),
            prev_foreman: key(14),
            new_foreman: key(77),
            prev_epoch_duration_seconds: 604_800,
            new_epoch_duration_seconds: 86_400,
        }
    );
    assert_eq!(a.gaugemeister.data.foreman, key(77));
    assert_eq!(a.gaugemeister.data.epoch_duration_seconds, 86_400);
    assert_eq!(a.gaugemeister.data.current_rewards_epoch, 4);
    assert_eq!(a.gaugemeister.data.next_epoch_starts_at, 1_000_000);
}

#[test]
fn only_foreman_sets_params() {
    let mut a = SetGaugemeisterParams { gaugemeister: gaugemeister(4, 1_000_000), foreman: key(15) };
    let before = a;
    assert_eq!(
        set_gaugemeister_params(&mut a, 86_400, key(77)),
        Err(ErrorCode::UnauthorizedNotForeman)
    );
    assert_eq!(a, before);
}

#[test]
fn gauge_is_created_disabled() {
    let mut a = CreateGauge {
        gauge: Account::new(key(2), Gauge::default()),
        gaugemeister: gaugemeister(0, 10),
        quarry: Account::new(key(20), Quarry { rewarder: key(11) }),
    };
    let event = create_gauge(&mut a).unwrap();
    assert_eq!(event, GaugeCreateEvent { gaugemeister: key(1), rewarder: key(11), quarry: key(20) });
    assert_eq!(a.gauge.data, Gauge { gaugemeister: key(1), quarry: key(20), is_disabled: true });
}

#[test]
fn gauge_of_other_rewarder_is_refused() {
    let mut a = CreateGauge {
        gauge: Account::new(key(2), Gauge::default()),
        gaugemeister: gaugemeister(0, 10),
        quarry: Account::new(key(20), Quarry { rewarder: key(12) }),
    };
    let before = a;
    assert_eq!(create_gauge(&mut a), Err(ErrorCode::KeyMismatch));
    assert_eq!(a, before);
}

#[test]
fn foreman_switches_gauge() {
    let gauge = Account::new(key(2), Gauge { gaugemeister: key(1), quarry: key(20), is_disabled: true });
    let mut enable = GaugeEnable { gaugemeister: gaugemeister(0, 10), gauge, foreman: key(14) };
    assert_eq!(
        gauge_enable(&mut enable),
        Ok(GaugeEnableEvent { gaugemeister: key(1), gauge: key(2), foreman: key(14) })
    );
    assert!(!enable.gauge.data.is_disabled);
    assert_eq!(enable.gauge.data.quarry, key(20));
    let mut disable =
        GaugeDisable { gaugemeister: gaugemeister(0, 10), gauge: enable.gauge, foreman: key(14) };
    assert_eq!(
        gauge_disable(&mut disable),
        Ok(GaugeDisableEvent { gaugemeister: key(1), gauge: key(2), foreman: key(14) })
    );
    assert!(disable.gauge.data.is_disabled);
}

#[test]
fn only_foreman_switches_gauge() {
    let gauge = Account::new(key(2), Gauge { gaugemeister: key(1), quarry: key(20), is_disabled: true });
    let mut enable = GaugeEnable { gaugemeister: gaugemeister(0, 10), gauge, foreman: key(15) };
    let before = enable;
    assert_eq!(gauge_enable(&mut enable), Err(ErrorCode::UnauthorizedNotForeman));
    assert_eq!(enable, before);
    let mut disable = GaugeDisable { gaugemeister: gaugemeister(0, 10), gauge, foreman: key(15) };
    assert_eq!(gauge_disable(&mut disable), Err(ErrorCode::UnauthorizedNotForeman));
    let other = Account::new(key(2), Gauge { gaugemeister: key(9), quarry: key(20), is_disabled: true });
    let mut enable = GaugeEnable { gaugemeister: gaugemeister(0, 10), gauge: other, foreman: key(15) };
    assert_eq!(gauge_enable(&mut enable), Err(ErrorCode::KeyMismatch));
}

fn escrow() -> Account<Escrow> {
    Account::new(
        key(30),
        Escrow {
            locker: key(13),
            owner: key(31),
            vote_delegate: key(32),
            amount: 1000,
            escrow_started_at: 1,
            escrow_ends_at: 2_000_000_000,
        },
    )
}

#[test]
fn voter_is_created_without_weight() {
    let mut a = CreateGaugeVoter {
        gauge_voter: Account::new(key(3), GaugeVoter::default()),
        gaugemeister: gaugemeister(0, 10),
        escrow: escrow(),
    };
    assert_eq!(create_gauge_voter(&mut a, 255), Ok(()));
    assert_eq!(
        a.gauge_voter.data,
        GaugeVoter {
            gaugemeister: key(1),
            escrow: key(30),
            owner: key(31),
            total_weight: 0,
            weight_change_seqno: 0,
        }
    );
}

#[test]
fn voter_of_other_locker_is_refused() {
    let mut other = escrow();
    other.data.locker = key(99);
    let mut a = CreateGaugeVoter {
        gauge_voter: Account::new(key(3), GaugeVoter::default()),
        gaugemeister: gaugemeister(0, 10),
        escrow: other,
    };
    let before = a;
    assert_eq!(create_gauge_voter(&mut a, 255), Err(ErrorCode::KeyMismatch));
    assert_eq!(a, before);
}

fn voter(gaugemeister: Pubkey) -> Account<GaugeVoter> {
    Account::new(
        key(3),
        GaugeVoter {
            gaugemeister,
            escrow: key(30),
            owner: key(31),
            total_weight: 40,
            weight_change_seqno: 9,
        },
    )
}

#[test]
fn vote_is_created_without_weight() {
    let mut a = CreateGaugeVote {
        gauge_vote: Account::new(key(4), GaugeVote::default()),
        gauge_voter: voter(key(1)),
        gauge: Account::new(key(2), Gauge { gaugemeister: key(1), quarry: key(20), is_disabled: true }),
    };
    let event = create_gauge_vote(&mut a, 255).unwrap();
    assert_eq!(
        event,
        GaugeVoteCreateEvent {
            gaugemeister: key(1),
            quarry: key(20),
            gauge_voter_owner: key(31),
            weight_change_seqno: 9,
        }
    );
    assert_eq!(
        a.gauge_vote.data,
        GaugeVote { gauge_voter: key(3), gauge: key(2), weight: 0, weight_change_seqno: 9 }
    );
}

#[test]
fn vote_across_gaugemeisters_is_refused() {
    let mut a = CreateGaugeVote {
        gauge_vote: Account::new(key(4), GaugeVote::default()),
        gauge_voter: voter(key(8)),
        gauge: Account::new(key(2), Gauge { gaugemeister: key(1), quarry: key(20), is_disabled: true }),
    };
    let before = a;
    assert_eq!(create_gauge_vote(&mut a, 255), Err(ErrorCode::KeyMismatch));
    assert_eq!(a, before);
}

#[test]
fn epoch_gauge_is_created_without_power() {
    let mut a = CreateEpochGauge {
        gauge: Account::new(key(2), Gauge { gaugemeister: key(1), quarry: key(20), is_disabled: true }),
        epoch_gauge: Account::new(key(5), EpochGauge { gauge: key(9), voting_epoch: 3, total_power: 77 }),
    };
    assert_eq!(a.validate(), Ok(()));
    assert_eq!(create_epoch_gauge(&mut a, 255, 12), Ok(()));
    assert_eq!(a.epoch_gauge.data, EpochGauge { gauge: key(2), voting_epoch: 12, total_power: 0 });
    assert_eq!(gauge::instructions::create_epoch_gauge::handler(&mut a, 255, 13), Ok(()));
    assert_eq!(a.epoch_gauge.data.voting_epoch, 13);
}

#[test]
fn records_start_empty() {
    assert_eq!(Gauge::default(), Gauge { gaugemeister: key(0), quarry: key(0), is_disabled: false });
    assert_eq!(
        GaugeVote::default(),
        GaugeVote { gauge_voter: key(0), gauge: key(0), weight: 0, weight_change_seqno: 0 }
    );
    assert_eq!(EpochGauge::default(), EpochGauge { gauge: key(0), voting_epoch: 0, total_power: 0 });
    assert_eq!(GaugeVoter::default().total_weight, 0);
    assert_eq!(Gaugemeister::default().current_rewards_epoch, 0);
    assert_eq!(Gaugemeister::default().foreman, Pubkey::default());
}
