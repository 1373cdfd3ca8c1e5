//! What this library reads of the rewards layer's records.

use vstd::prelude::*;
use crate::pubkey::Pubkey;

verus! {

/// A pool of the rewards layer that a gauge directs rewards to.
#[derive(Clone, Copy, Debug, PartialEq, Eq)]
pub struct Quarry {
    /// The rewarder that the quarry belongs to.
    pub rewarder: Pubkey,
}

/// The operator through which rewards shares of a rewarder are set.
#[derive(Clone, Copy, Debug, PartialEq, Eq)]
pub struct Operator {
    /// The rewarder that the operator manages.
    pub rewarder: Pubkey,
}

} // verus!
