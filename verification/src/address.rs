//! Addresses of records, derived from what identifies them.
//!
//! The address of a record is a function of a tag, of the addresses of the
//! records it belongs to and, for records of one epoch, of the epoch's
//! number. Anyone can therefore compute where a record is stored.

use vstd::prelude::*;
use vstd::bytes::{spec_u32_to_le_bytes, u32_to_le_bytes};
use crate::pubkey::Pubkey;
use crate::state::{
    EpochGauge,
    EpochGaugeVote,
    EpochGaugeVoter,
    Gauge,
    GaugeDelegation,
    GaugeVote,
    GaugeVoter,
    Gaugemeister,
};

verus! {

/// The address, and the bump seed that gives it, that the runtime derives
/// for a program from a list of seeds; nothing where the runtime derives no
/// address from them.
pub uninterp spec fn program_address(seeds: Seq<Seq<u8>>, program_id: Pubkey) -> Option<
    (Pubkey, u8),
>;

/// The seeds as sequences of bytes.
pub open spec fn seed_views(seeds: Seq<Vec<u8>>) -> Seq<Seq<u8>> {
    Seq::new(seeds.len(), |i: int| seeds[i]@)
}

/// `Pubkey::try_find_program_address` of the runtime, on the given seeds and
/// program. The result is determined by the seeds and the program's
/// address; the contract gives it a name and claims nothing else of it.
#[verifier::external_body]
pub(crate) fn try_find_program_address(seeds: &Vec<Vec<u8>>, program_id: &Pubkey) -> (found:
    Option<(Pubkey, u8)>)
    ensures
        found == program_address(seed_views(seeds@), *program_id),
{
    let seed_slices: Vec<&[u8]> = seeds.iter().map(|seed| seed.as_slice()).collect();
    let program = anchor_lang::prelude::Pubkey::new_from_array(program_id.bytes);
    match anchor_lang::prelude::Pubkey::try_find_program_address(&seed_slices, &program) {
        Some((key, bump)) => Some((Pubkey { bytes: key.to_bytes() }, bump)),
        None => None,
    }
}

/// The address of the gauge program, under which its records are derived.
pub open spec fn spec_id() -> Pubkey {
    Pubkey {
        bytes: [
            231u8, 143, 10, 75, 68, 120, 15, 120, 85, 1, 168, 85, 96, 12, 253, 218,
            119, 11, 103, 162, 114, 45, 173, 120, 193, 56, 177, 16, 83, 170, 106, 56,
        ],
    }
}

/// The address of the gauge program, under which its records are derived.
pub fn id() -> (key: Pubkey)
    ensures
        key == spec_id(),
{
    Pubkey {
        bytes: [
            231u8, 143, 10, 75, 68, 120, 15, 120, 85, 1, 168, 85, 96, 12, 253, 218,
            119, 11, 103, 162, 114, 45, 173, 120, 193, 56, 177, 16, 83, 170, 106, 56,
        ],
    }
}

/// The address alone of a derived address and its bump seed.
pub open spec fn address_of(found: Option<(Pubkey, u8)>) -> Option<Pubkey> {
    match found {
        Some((key, _)) => Some(key),
        None => None,
    }
}

/// The address that the gauge program has for a record with the tag `tag`
/// that belongs to the record at `owner`.
pub open spec fn address_with_key(tag: Seq<u8>, owner: Pubkey) -> Option<(Pubkey, u8)> {
    program_address(seq![tag, owner@], spec_id())
}

/// The address that the gauge program has for a record with the tag `tag`
/// that belongs to the records at `first` and `second`.
pub open spec fn address_with_keys(tag: Seq<u8>, first: Pubkey, second: Pubkey) -> Option<
    (Pubkey, u8),
> {
    program_address(seq![tag, first@, second@], spec_id())
}

/// The address that the gauge program has for a record with the tag `tag`
/// that belongs to the record at `owner` and to the epoch `epoch`, whose
/// number enters in little-endian bytes.
pub open spec fn address_with_epoch(tag: Seq<u8>, owner: Pubkey, epoch: u32) -> Option<
    (Pubkey, u8),
> {
    program_address(seq![tag, owner@, spec_u32_to_le_bytes(epoch)], spec_id())
}

fn find_with_key(tag: Vec<u8>, owner: &Pubkey) -> (found: Option<(Pubkey, u8)>)
    ensures
        found == address_with_key(tag@, *owner),
{
    let ghost tag_bytes = tag@;
    let mut seeds: Vec<Vec<u8>> = Vec::new();
    seeds.push(tag);
    seeds.push(owner.to_vec());
    assert(seed_views(seeds@) =~= seq![tag_bytes, owner@]);
    try_find_program_address(&seeds, &id())
}

fn find_with_keys(tag: Vec<u8>, first: &Pubkey, second: &Pubkey) -> (found: Option<(Pubkey, u8)>)
    ensures
        found == address_with_keys(tag@, *first, *second),
{
    let ghost tag_bytes = tag@;
    let mut seeds: Vec<Vec<u8>> = Vec::new();
    seeds.push(tag);
    seeds.push(first.to_vec());
    seeds.push(second.to_vec());
    assert(seed_views(seeds@) =~= seq![tag_bytes, first@, second@]);
    try_find_program_address(&seeds, &id())
}

fn find_with_epoch(tag: Vec<u8>, owner: &Pubkey, epoch: u32) -> (found: Option<(Pubkey, u8)>)
    ensures
        found == address_with_epoch(tag@, *owner, epoch),
{
    let ghost tag_bytes = tag@;
    let mut seeds: Vec<Vec<u8>> = Vec::new();
    seeds.push(tag);
    seeds.push(owner.to_vec());
    seeds.push(u32_to_le_bytes(epoch));
    assert(seed_views(seeds@) =~= seq![tag_bytes, owner@, spec_u32_to_le_bytes(epoch)]);
    try_find_program_address(&seeds, &id())
}

/// The tag of the addresses of gaugemeisters: `Gaugemeister` in ASCII.
pub open spec fn gaugemeister_tag() -> Seq<u8> {
    seq![71u8, 97, 117, 103, 101, 109, 101, 105, 115, 116, 101, 114]
}

/// The tag of the addresses of gauges: `Gauge` in ASCII.
pub open spec fn gauge_tag() -> Seq<u8> {
    seq![71u8, 97, 117, 103, 101]
}

/// The tag of the addresses of gauge voters: `GaugeVoter` in ASCII.
pub open spec fn gauge_voter_tag() -> Seq<u8> {
    seq![71u8, 97, 117, 103, 101, 86, 111, 116, 101, 114]
}

/// The tag of the addresses of gauge votes: `GaugeVote` in ASCII.
pub open spec fn gauge_vote_tag() -> Seq<u8> {
    seq![71u8, 97, 117, 103, 101, 86, 111, 116, 101]
}

/// The tag of the addresses of epoch gauges: `EpochGauge` in ASCII.
pub open spec fn epoch_gauge_tag() -> Seq<u8> {
    seq![69u8, 112, 111, 99, 104, 71, 97, 117, 103, 101]
}

/// The tag of the addresses of epoch gauge voters: `EpochGaugeVoter` in ASCII.
pub open spec fn epoch_gauge_voter_tag() -> Seq<u8> {
    seq![69u8, 112, 111, 99, 104, 71, 97, 117, 103, 101, 86, 111, 116, 101, 114]
}

/// The tag of the addresses of epoch gauge votes: `EpochGaugeVote` in ASCII.
pub open spec fn epoch_gauge_vote_tag() -> Seq<u8> {
    seq![69u8, 112, 111, 99, 104, 71, 97, 117, 103, 101, 86, 111, 116, 101]
}

/// The tag of the addresses of gauge delegations: `GaugeDelegation` in ASCII.
pub open spec fn gauge_delegation_tag() -> Seq<u8> {
    seq![71u8, 97, 117, 103, 101, 68, 101, 108, 101, 103, 97, 116, 105, 111, 110]
}

impl Gaugemeister {
    /// The address, with its bump seed, of the gaugemeister of a base.
    pub open spec fn spec_find_program_address(base: Pubkey) -> Option<(Pubkey, u8)> {
        address_with_key(gaugemeister_tag(), base)
    }

    /// Finds the address of the gaugemeister of a base.
    pub fn find_program_address(base: &Pubkey) -> (found: Option<(Pubkey, u8)>)
        ensures
            found == Self::spec_find_program_address(*base),
    {
        let tag: Vec<u8> = vec![71u8, 97, 117, 103, 101, 109, 101, 105, 115, 116, 101, 114];
        assert(tag@ =~= gaugemeister_tag());
        find_with_key(tag, base)
    }
}

impl Gauge {
    /// The address, with its bump seed, of the gauge of a gaugemeister for
    /// a quarry.
    pub open spec fn spec_find_program_address(gaugemeister: Pubkey, quarry: Pubkey) -> Option<
        (Pubkey, u8),
    > {
        address_with_keys(gauge_tag(), gaugemeister, quarry)
    }

    /// Finds the address of the gauge of a gaugemeister for a quarry.
    pub fn find_program_address(gaugemeister: &Pubkey, quarry: &Pubkey) -> (found: Option<
        (Pubkey, u8),
    >)
        ensures
            found == Self::spec_find_program_address(*gaugemeister, *quarry),
    {
        let tag: Vec<u8> = vec![71u8, 97, 117, 103, 101];
        assert(tag@ =~= gauge_tag());
        find_with_keys(tag, gaugemeister, quarry)
    }
}

impl GaugeVoter {
    /// The address, with its bump seed, of the voter of an escrow under a
    /// gaugemeister.
    pub open spec fn spec_find_program_address(gaugemeister: Pubkey, escrow: Pubkey) -> Option<
        (Pubkey, u8),
    > {
        address_with_keys(gauge_voter_tag(), gaugemeister, escrow)
    }

    /// Finds the address of the voter of an escrow under a gaugemeister.
    pub fn find_program_address(gaugemeister: &Pubkey, escrow: &Pubkey) -> (found: Option<
        (Pubkey, u8),
    >)
        ensures
            found == Self::spec_find_program_address(*gaugemeister, *escrow),
    {
        let tag: Vec<u8> = vec![71u8, 97, 117, 103, 101, 86, 111, 116, 101, 114];
        assert(tag@ =~= gauge_voter_tag());
        find_with_keys(tag, gaugemeister, escrow)
    }
}

impl GaugeVote {
    /// The address, with its bump seed, of the vote of a voter for a gauge.
    pub open spec fn spec_find_program_address(gauge_voter: Pubkey, gauge: Pubkey) -> Option<
        (Pubkey, u8),
    > {
        address_with_keys(gauge_vote_tag(), gauge_voter, gauge)
    }

    /// Finds the address of the vote of a voter for a gauge.
    pub fn find_program_address(gauge_voter: &Pubkey, gauge: &Pubkey) -> (found: Option<
        (Pubkey, u8),
    >)
        ensures
            found == Self::spec_find_program_address(*gauge_voter, *gauge),
    {
        let tag: Vec<u8> = vec![71u8, 97, 117, 103, 101, 86, 111, 116, 101];
        assert(tag@ =~= gauge_vote_tag());
        find_with_keys(tag, gauge_voter, gauge)
    }
}

impl EpochGauge {
    /// The address, with its bump seed, of the epoch gauge of a gauge and
    /// an epoch.
    pub open spec fn spec_find_program_address(gauge: Pubkey, voting_epoch: u32) -> Option<
        (Pubkey, u8),
    > {
        address_with_epoch(epoch_gauge_tag(), gauge, voting_epoch)
    }

    /// Finds the address of the epoch gauge of a gauge and an epoch.
    pub fn find_program_address(gauge: &Pubkey, voting_epoch: u32) -> (found: Option<(Pubkey, u8)>)
        ensures
            found == Self::spec_find_program_address(*gauge, voting_epoch),
    {
        let tag: Vec<u8> = vec![69u8, 112, 111, 99, 104, 71, 97, 117, 103, 101];
        assert(tag@ =~= epoch_gauge_tag());
        find_with_epoch(tag, gauge, voting_epoch)
    }
}

impl EpochGaugeVoter {
    /// The address, with its bump seed, of the epoch gauge voter of a voter
    /// and an epoch.
    pub open spec fn spec_find_program_address(gauge_voter: Pubkey, voting_epoch: u32) -> Option<
        (Pubkey, u8),
    > {
        address_with_epoch(epoch_gauge_voter_tag(), gauge_voter, voting_epoch)
    }

    /// Finds the address of the epoch gauge voter of a voter and an epoch.
    pub fn find_program_address(gauge_voter: &Pubkey, voting_epoch: u32) -> (found: Option<
        (Pubkey, u8),
    >)
        ensures
            found == Self::spec_find_program_address(*gauge_voter, voting_epoch),
    {
        let tag: Vec<u8> = vec![
            69u8, 112, 111, 99, 104, 71, 97, 117, 103, 101, 86, 111, 116, 101, 114,
        ];
        assert(tag@ =~= epoch_gauge_voter_tag());
        find_with_epoch(tag, gauge_voter, voting_epoch)
    }
}

impl EpochGaugeVote {
    /// The address, with its bump seed, of the epoch gauge vote of a gauge
    /// vote and an epoch.
    pub open spec fn spec_find_program_address(gauge_vote: Pubkey, voting_epoch: u32) -> Option<
        (Pubkey, u8),
    > {
        address_with_epoch(epoch_gauge_vote_tag(), gauge_vote, voting_epoch)
    }

    /// Finds the address of the epoch gauge vote of a gauge vote and an epoch.
    pub fn find_program_address(gauge_vote: &Pubkey, voting_epoch: u32) -> (found: Option<
        (Pubkey, u8),
    >)
        ensures
            found == Self::spec_find_program_address(*gauge_vote, voting_epoch),
    {
        let tag: Vec<u8> = vec![69u8, 112, 111, 99, 104, 71, 97, 117, 103, 101, 86, 111, 116, 101];
        assert(tag@ =~= epoch_gauge_vote_tag());
        find_with_epoch(tag, gauge_vote, voting_epoch)
    }
}

impl GaugeDelegation {
    /// The address, with its bump seed, of the delegation of a voter.
    pub open spec fn spec_find_program_address(gauge_voter: Pubkey) -> Option<(Pubkey, u8)> {
        address_with_key(gauge_delegation_tag(), gauge_voter)
    }

    /// Finds the address of the delegation of a voter.
    pub fn find_program_address(gauge_voter: &Pubkey) -> (found: Option<(Pubkey, u8)>)
        ensures
            found == Self::spec_find_program_address(*gauge_voter),
    {
        let tag: Vec<u8> = vec![
            71u8, 97, 117, 103, 101, 68, 101, 108, 101, 103, 97, 116, 105, 111, 110,
        ];
        assert(tag@ =~= gauge_delegation_tag());
        find_with_key(tag, gauge_voter)
    }
}

} // verus!
