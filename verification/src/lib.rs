//! Gauge voting: voting escrows allocate weighted votes between gauges, and
//! the votes are committed per epoch into totals of voting power.
//!
//! A voter gives each of its votes a weight. For every epoch a snapshot of
//! the voter's voting power is taken, and each vote is committed with its
//! share of that power: the power times the weight of the vote over the
//! total weight of the voter, rounded down. A gauge's total for the epoch
//! is the sum of what was committed to it. A commitment can be reverted
//! while its epoch is being voted on.
//!
//! - [`state`] holds the records, [`instructions`] the operations on the
//!   accounts of one call, and [`gauge`] the operations with their checks.
//! - [`ledger`] keeps the records together and shows what holds of them
//!   whatever is done: the conservation of weight and of power.
//! - [`guarantees`] states what the operations guarantee together.
//! - [`address`] derives the addresses of the records, and [`locker`] and
//!   [`quarry`] hold what is read of the records of other programs.

pub mod account;
pub mod address;
mod casts;
pub mod error;
pub mod gauge;
pub mod guarantees;
pub mod instructions;
pub mod ledger;
pub mod locker;
pub mod pubkey;
pub mod quarry;
pub mod state;
pub mod sums;
