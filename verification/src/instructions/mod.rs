//! The operations of gauge voting, one module each.

pub mod create_epoch_gauge;
pub mod create_gauge;
pub mod create_gauge_delegation;
pub mod create_gauge_vote;
pub mod create_gauge_voter;
pub mod create_gaugemeister;
pub mod delegated_gauge_commit_vote;
pub mod delegated_gauge_revert_vote;
pub mod delegated_gauge_set_vote;
pub mod delegation_set_vote_committer;
pub mod delegation_set_vote_setter;
pub mod gauge_commit_vote;
pub mod gauge_commit_vote_v2;
pub mod gauge_disable;
pub mod gauge_enable;
pub mod gauge_revert_vote;
pub mod gauge_set_vote;
pub mod prepare_epoch_gauge_voter;
pub mod reset_epoch_gauge_voter;
pub mod set_gaugemeister_params;
pub mod trigger_next_epoch;
