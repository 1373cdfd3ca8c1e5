use anchor_lang::prelude::Pubkey as ChainKey;
use gauge::address::id;
use gauge::pubkey::Pubkey;
use gauge::state::{
    EpochGauge, EpochGaugeVote, EpochGaugeVoter, Gauge, GaugeDelegation, GaugeVote, GaugeVoter,
    Gaugemeister,
};
use std::str::FromStr;

fn key(n: u8) -> Pubkey {
    Pubkey::new_from_array([n; 32])
}

fn program() -> ChainKey {
    ChainKey::from_str("GaugesLJrnVjNNWLReiw3Q7xQhycSBRgeHGTMDUaX231").unwrap()
}

fn expected(seeds: &[&[u8]]) -> Option<(Pubkey, u8)> {
    let (address, bump) = ChainKey::find_program_address(seeds, &program());
    Some((Pubkey::new_from_array(address.to_bytes()), bump))
}

#[test]
fn program_address_is_the_gauge_program() {
    assert_eq!(id().to_bytes(), program().to_bytes());
    assert_eq!(id(), Pubkey::new_from_array(program().to_bytes()));
}

#[test]
fn gaugemeister_address() {
    assert_eq!(Gaugemeister::find_program_address(&key(10)), expected(&[b"Gaugemeister", &[10; 32]]));
}

#[test]
fn gauge_address() {
    assert_eq!(
        Gauge::find_program_address(&key(1), &key(20)),
        expected(&[b"Gauge", &[1; 32], &[20; 32]])
    );
    assert_ne!(Gauge::find_program_address(&key(1), &key(20)), Gauge::find_program_address(&key(20), &key(1)));
}

#[test]
fn gauge_voter_address() {
    assert_eq!(
        GaugeVoter::find_program_address(&key(1), &key(30)),
        expected(&[b"GaugeVoter", &[1; 32], &[30; 32]])
    );
}

#[test]
fn gauge_vote_address() {
    assert_eq!(
        GaugeVote::find_program_address(&key(3), &key(2)),
        expected(&[b"GaugeVote", &[3; 32], &[2; 32]])
    );
}

#[test]
fn epoch_gauge_address() {
    assert_eq!(
        EpochGauge::find_program_address(&key(2), 5),
        expected(&[b"EpochGauge", &[2; 32], &5u32.to_le_bytes()])
    );
    assert_eq!(
        EpochGauge::find_program_address(&key(2), 0x0102_0304),
        expected(&[b"EpochGauge", &[2; 32], &[4, 3, 2, 1]])
    );
}

#[test]
fn epoch_gauge_voter_address() {
    assert_eq!(
        EpochGaugeVoter::find_program_address(&key(3), 5),
        expected(&[b"EpochGaugeVoter", &[3; 32], &5u32.to_le_bytes()])
    );
}

#[test]
fn epoch_gauge_vote_address() {
    assert_eq!(
        EpochGaugeVote::find_program_address(&key(4), 5),
        expected(&[b"EpochGaugeVote", &[4; 32], &5u32.to_le_bytes()])
    );
    assert_ne!(
        EpochGaugeVote::find_program_address(&key(4), 5),
        EpochGaugeVote::find_program_address(&key(4), 6)
    );
    assert_ne!(
        EpochGaugeVote::find_program_address(&key(4), 5),
        EpochGaugeVoter::find_program_address(&key(4), 5)
    );
}

#[test]
fn gauge_delegation_address() {
    assert_eq!(
        GaugeDelegation::find_program_address(&key(3)),
        expected(&[b"GaugeDelegation", &[3; 32]])
    );
}

#[test]
fn keys_compare_by_their_bytes() {
    let mut bytes = [7u8; 32];
    assert_eq!(Pubkey::new_from_array(bytes), key(7));
    bytes[31] = 8;
    assert_ne!(Pubkey::new_from_array(bytes), key(7));
    assert_eq!(Pubkey::new_from_array(bytes).to_bytes(), bytes);
    assert_eq!(Pubkey::new_from_array(bytes).to_vec(), bytes.to_vec());
    assert_eq!(Pubkey::default(), key(0));
}
