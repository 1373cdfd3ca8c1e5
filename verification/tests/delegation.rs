use gauge::account::Account;
use gauge::error::ErrorCode;
use gauge::instructions::create_gauge_delegation::CreateGaugeDelegation;
use gauge::instructions::delegated_gauge_commit_vote::DelegatedGaugeCommitVote;
use gauge::instructions::delegated_gauge_revert_vote::DelegatedGaugeRevertVote;
use gauge::instructions::delegated_gauge_set_vote::DelegatedGaugeSetVote;
use gauge::instructions::delegation_set_vote_committer::DelegationSetVoteCommitter;
use gauge::instructions::delegation_set_vote_setter::DelegationSetVoteSetter;
use gauge::instructions::gauge_commit_vote_v2::GaugeCommitVoteV2;
use gauge::instructions::gauge_revert_vote::GaugeRevertVote;
use gauge::instructions::gauge_set_vote::GaugeSetVote;
use gauge::instructions::{
    create_gauge_delegation, delegated_gauge_commit_vote, delegated_gauge_revert_vote,
    delegated_gauge_set_vote, delegation_set_vote_committer, delegation_set_vote_setter,
    gauge_commit_vote_v2,
};
use gauge::locker::Escrow;
use gauge::pubkey::Pubkey;
use gauge::state::{
    EpochGauge, EpochGaugeVote, EpochGaugeVoter, Gauge, GaugeDelegation, GaugeVote, GaugeVoter,
    Gaugemeister,
};

const SETTER: u8 = 70;
const COMMITTER: u8 = 71;
const DELEGATE: u8 = 32;

fn key(n: u8) -> Pubkey {
    Pubkey::new_from_array([n; 32])
}

fn gaugemeister() -> Account<Gaugemeister> {
    Account::new(
        key(1),
        Gaugemeister {
            base: key(10),
            bump: 255,
            rewarder: key(11),
            operator: key(12),
            locker: key(13),
            foreman: key(14),
            epoch_duration_seconds: 604_800,
            current_rewards_epoch: 4,
            next_epoch_starts_at: 1_700_000_000,
            locker_token_mint: key(15),
            locker_governor: key(16),
        },
    )
}

fn gauge() -> Account<Gauge> {
    Account::new(key(2), Gauge { gaugemeister: key(1), quarry: key(20), is_disabled: false })
}

fn voter() -> Account<GaugeVoter> {
    Account::new(
        key(3),
        GaugeVoter {
            gaugemeister: key(1),
            escrow: key(30),
            owner: key(31),
            total_weight: 100,
            weight_change_seqno: 7,
        },
    )
}

fn vote() -> Account<GaugeVote> {
    Account::new(key(4), GaugeVote { gauge_voter: key(3), gauge: key(2), weight: 30, weight_change_seqno: 0 })
}

fn escrow() -> Account<Escrow> {
    Account::new(
        key(30),
        Escrow {
            locker: key(13),
            owner: key(31),
            vote_delegate: key(DELEGATE),
            amount: 1000,
            escrow_started_at: 1,
            escrow_ends_at: 2_000_000_000,
        },
    )
}

fn delegation() -> Account<GaugeDelegation> {
    Account::new(
        key(8),
        GaugeDelegation { gauge_voter: key(3), vote_setter: key(SETTER), vote_committer: key(COMMITTER) },
    )
}

#[test]
fn delegation_is_created_without_delegates() {
    let mut a = CreateGaugeDelegation {
        gauge_delegation: Account::new(key(8), delegation().data),
        gauge_voter: voter(),
        escrow: escrow(),
    };
    assert_eq!(a.validate(), Ok(()));
    assert_eq!(create_gauge_delegation::handler(&mut a), Ok(()));
    assert_eq!(
        a.gauge_delegation.data,
        GaugeDelegation { gauge_voter: key(3), vote_setter: key(0), vote_committer: key(0) }
    );
    let mut other = escrow();
    other.key = key(99);
    let a = CreateGaugeDelegation { escrow: other, ..a };
    assert_eq!(a.validate(), Err(ErrorCode::KeyMismatch));
}

#[test]
fn vote_delegate_sets_the_vote_setter() {
    let mut a = DelegationSetVoteSetter {
        gauge_delegation: delegation(),
        gauge_voter: voter(),
        escrow: escrow(),
        escrow_vote_delegate: key(DELEGATE),
        new_vote_setter: key(80),
    };
    assert_eq!(a.validate(), Ok(()));
    assert_eq!(delegation_set_vote_setter::handler(&mut a), Ok(()));
    assert_eq!(a.gauge_delegation.data.vote_setter, key(80));
    assert_eq!(a.gauge_delegation.data.vote_committer, key(COMMITTER));
}

#[test]
fn vote_delegate_sets_the_vote_committer() {
    let mut a = DelegationSetVoteCommitter {
        gauge_delegation: delegation(),
        gauge_voter: voter(),
        escrow: escrow(),
        escrow_vote_delegate: key(DELEGATE),
        new_vote_committer: key(81),
    };
    assert_eq!(a.validate(), Ok(()));
    assert_eq!(delegation_set_vote_committer::handler(&mut a), Ok(()));
    assert_eq!(a.gauge_delegation.data.vote_committer, key(81));
    assert_eq!(a.gauge_delegation.data.vote_setter, key(SETTER));
}

#[test]
fn delegates_cannot_pass_their_capability_on() {
    let setter = DelegationSetVoteSetter {
        gauge_delegation: delegation(),
        gauge_voter: voter(),
        escrow: escrow(),
        escrow_vote_delegate: key(SETTER),
        new_vote_setter: key(80),
    };
    assert_eq!(setter.validate(), Err(ErrorCode::KeyMismatch));
    let committer = DelegationSetVoteCommitter {
        gauge_delegation: delegation(),
        gauge_voter: voter(),
        escrow: escrow(),
        escrow_vote_delegate: key(COMMITTER),
        new_vote_committer: key(81),
    };
    assert_eq!(committer.validate(), Err(ErrorCode::KeyMismatch));
    let mut other_voter = voter();
    other_voter.key = key(99);
    let wrong = DelegationSetVoteSetter { gauge_voter: other_voter, escrow_vote_delegate: key(DELEGATE), ..setter };
    assert_eq!(wrong.validate(), Err(ErrorCode::KeyMismatch));
    let mut other_escrow = escrow();
    other_escrow.key = key(98);
    let wrong = DelegationSetVoteSetter { escrow: other_escrow, escrow_vote_delegate: key(DELEGATE), ..setter };
    assert_eq!(wrong.validate(), Err(ErrorCode::KeyMismatch));
}

fn set_vote(asking: u8) -> DelegatedGaugeSetVote {
    DelegatedGaugeSetVote {
        common: GaugeSetVote {
            gaugemeister: gaugemeister(),
            gauge: gauge(),
            gauge_voter: voter(),
            gauge_vote: vote(),
            escrow: escrow(),
            vote_delegate: key(asking),
        },
        gauge_delegation: delegation(),
    }
}

#[test]
fn vote_setter_sets_votes() {
    let mut a = set_vote(SETTER);
    assert_eq!(a.validate(), Ok(()));
    let event = delegated_gauge_set_vote::handler(&mut a, 45).unwrap().unwrap();
    assert_eq!(event.vote_delegate, key(SETTER));
    assert_eq!(event.total_weight, 115);
    assert_eq!(a.common.gauge_vote.data.weight, 45);
    assert_eq!(a.common.gauge_voter.data.weight_change_seqno, 8);
    assert_eq!(a.gauge_delegation, delegation());
}

#[test]
fn others_do_not_set_votes_through_the_delegation() {
    assert_eq!(set_vote(COMMITTER).validate(), Err(ErrorCode::KeyMismatch));
    assert_eq!(set_vote(DELEGATE).validate(), Err(ErrorCode::KeyMismatch));
    let mut a = set_vote(SETTER);
    a.gauge_delegation.data.gauge_voter = key(99);
    assert_eq!(a.validate(), Err(ErrorCode::KeyMismatch));
    let mut a = set_vote(SETTER);
    a.common.gauge_vote.data.gauge = key(99);
    assert_eq!(a.validate(), Err(ErrorCode::KeyMismatch));
}

fn commit(asking: u8) -> GaugeCommitVoteV2 {
    let (address, _) = EpochGaugeVote::find_program_address(&key(4), 5).unwrap();
    GaugeCommitVoteV2 {
        gaugemeister: gaugemeister(),
        gauge: gauge(),
        gauge_voter: voter(),
        gauge_vote: vote(),
        epoch_gauge: Account::new(key(5), EpochGauge { gauge: key(2), voting_epoch: 5, total_power: 10 }),
        epoch_gauge_voter: Account::new(
            key(6),
            EpochGaugeVoter {
                gauge_voter: key(3),
                voting_epoch: 5,
                weight_change_seqno: 7,
                voting_power: 1000,
                allocated_power: 0,
            },
        ),
        epoch_gauge_vote: Account::new(address, EpochGaugeVote::default()),
        escrow: escrow(),
        vote_delegate: key(asking),
    }
}

#[test]
fn vote_delegate_commits() {
    let mut a = commit(DELEGATE);
    assert_eq!(a.validate(), Ok(()));
    assert_eq!(a.vote_shares_for_next_epoch(), Some(300));
    let event = gauge_commit_vote_v2::handler(&mut a).unwrap().unwrap();
    assert_eq!(event.vote_shares_for_next_epoch, 300);
    assert_eq!(event.updated_total_power, 310);
    assert_eq!(a.epoch_gauge.data.total_power, 310);
    assert_eq!(a.epoch_gauge_voter.data.allocated_power, 300);
    assert_eq!(a.epoch_gauge_vote.data.allocated_power, 300);
    assert_eq!(a.common().epoch_gauge, a.epoch_gauge);
}

#[test]
fn others_do_not_commit_for_the_voter() {
    assert_eq!(commit(COMMITTER).validate(), Err(ErrorCode::KeyMismatch));
    assert_eq!(commit(COMMITTER).validate_without_delegate(), Ok(()));
    let mut a = commit(DELEGATE);
    a.gauge_voter.data.escrow = key(99);
    assert_eq!(a.validate_without_delegate(), Err(ErrorCode::KeyMismatch));
    let mut a = commit(DELEGATE);
    a.gauge.data.is_disabled = true;
    assert_eq!(a.validate(), Err(ErrorCode::CannotCommitGaugeDisabled));
    let mut a = commit(DELEGATE);
    a.gauge_voter.data.weight_change_seqno = 8;
    assert_eq!(a.validate(), Err(ErrorCode::WeightSeqnoChanged));
    let mut a = commit(DELEGATE);
    a.epoch_gauge_voter.data.voting_epoch = 6;
    assert_eq!(a.validate(), Err(ErrorCode::EpochGaugeNotVoting));
}

#[test]
fn vote_committer_commits_and_reverts() {
    let mut a = DelegatedGaugeCommitVote { common: commit(COMMITTER), gauge_delegation: delegation() };
    assert_eq!(a.validate(), Ok(()));
    let event = delegated_gauge_commit_vote::handler(&mut a).unwrap().unwrap();
    assert_eq!(event.vote_shares_for_next_epoch, 300);
    let mut b = DelegatedGaugeRevertVote {
        common: GaugeRevertVote {
            gaugemeister: gaugemeister(),
            gauge: gauge(),
            gauge_voter: voter(),
            gauge_vote: vote(),
            epoch_gauge: a.common.epoch_gauge,
            epoch_gauge_voter: a.common.epoch_gauge_voter,
            escrow: escrow(),
            vote_delegate: key(COMMITTER),
            epoch_gauge_vote: a.common.epoch_gauge_vote,
        },
        gauge_delegation: delegation(),
    };
    assert_eq!(b.validate(), Ok(()));
    let event = delegated_gauge_revert_vote::handler(&mut b).unwrap();
    assert_eq!(event.subtracted_power, 300);
    assert_eq!(b.common.epoch_gauge.data.total_power, 10);
    assert_eq!(b.common.epoch_gauge_voter.data.allocated_power, 0);
    assert_eq!(b.gauge_delegation, delegation());
}

#[test]
fn vote_setter_does_not_commit_or_revert() {
    let a = DelegatedGaugeCommitVote { common: commit(SETTER), gauge_delegation: delegation() };
    assert_eq!(a.validate(), Err(ErrorCode::KeyMismatch));
    let mut other = delegation();
    other.data.gauge_voter = key(99);
    let a = DelegatedGaugeCommitVote { common: commit(COMMITTER), gauge_delegation: other };
    assert_eq!(a.validate(), Err(ErrorCode::KeyMismatch));
    let committed = commit(COMMITTER);
    let revert = GaugeRevertVote {
        gaugemeister: gaugemeister(),
        gauge: gauge(),
        gauge_voter: voter(),
        gauge_vote: vote(),
        epoch_gauge: committed.epoch_gauge,
        epoch_gauge_voter: committed.epoch_gauge_voter,
        escrow: escrow(),
        vote_delegate: key(SETTER),
        epoch_gauge_vote: committed.epoch_gauge_vote,
    };
    let b = DelegatedGaugeRevertVote { common: revert, gauge_delegation: delegation() };
    assert_eq!(b.validate(), Err(ErrorCode::KeyMismatch));
    let b = DelegatedGaugeRevertVote {
        common: GaugeRevertVote { vote_delegate: key(COMMITTER), ..revert },
        gauge_delegation: delegation(),
    };
    assert_eq!(b.validate(), Ok(()));
    let mut closed = b;
    closed.common.epoch_gauge.data.voting_epoch = 4;
    assert_eq!(closed.validate(), Err(ErrorCode::EpochGaugeNotVoting));
}

#[test]
fn unset_delegation_lets_nobody_act() {
    let unset = Account::new(
        key(8),
        GaugeDelegation { gauge_voter: key(3), vote_setter: key(0), vote_committer: key(0) },
    );
    assert!(!unset.data.is_vote_setter(&key(0)));
    assert!(!unset.data.is_vote_committer(&key(0)));
    assert!(!unset.data.is_vote_setter(&key(SETTER)));
    assert!(delegation().data.is_vote_setter(&key(SETTER)));
    assert!(!delegation().data.is_vote_setter(&key(COMMITTER)));
    assert!(delegation().data.is_vote_committer(&key(COMMITTER)));
    assert!(!delegation().data.is_vote_committer(&key(0)));
    let mut set = set_vote(0);
    set.gauge_delegation = unset;
    assert_eq!(set.validate(), Err(ErrorCode::KeyMismatch));
    let commit = DelegatedGaugeCommitVote { common: commit(0), gauge_delegation: unset };
    assert_eq!(commit.common.validate_without_delegate(), Ok(()));
    assert_eq!(commit.validate(), Err(ErrorCode::KeyMismatch));
    let committed = commit.common;
    let revert = DelegatedGaugeRevertVote {
        common: GaugeRevertVote {
            gaugemeister: gaugemeister(),
            gauge: gauge(),
            gauge_voter: voter(),
            gauge_vote: vote(),
            epoch_gauge: committed.epoch_gauge,
            epoch_gauge_voter: committed.epoch_gauge_voter,
            escrow: escrow(),
            vote_delegate: key(0),
            epoch_gauge_vote: committed.epoch_gauge_vote,
        },
        gauge_delegation: unset,
    };
    assert_eq!(revert.common.validate_without_delegate(), Ok(()));
    assert_eq!(revert.validate(), Err(ErrorCode::KeyMismatch));
    let half_set = Account::new(
        key(8),
        GaugeDelegation { gauge_voter: key(3), vote_setter: key(SETTER), vote_committer: key(0) },
    );
    let mut set = set_vote(SETTER);
    set.gauge_delegation = half_set;
    assert_eq!(set.validate(), Ok(()));
}

#[test]
fn delegate_commit_to_epoch_gauge_of_other_epoch_is_refused() {
    let mut a = commit(DELEGATE);
    a.epoch_gauge.data.voting_epoch = 4;
    assert_eq!(a.validate_without_delegate(), Err(ErrorCode::EpochGaugeNotVoting));
    assert_eq!(a.validate(), Err(ErrorCode::EpochGaugeNotVoting));
    let delegated = DelegatedGaugeCommitVote { common: a, gauge_delegation: delegation() };
    assert_eq!(delegated.validate(), Err(ErrorCode::EpochGaugeNotVoting));
}
