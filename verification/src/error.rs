//! Why an operation was rejected.

use vstd::prelude::*;

verus! {

/// Errors.
#[derive(Clone, Copy, Debug, PartialEq, Eq, Structural)]
pub enum ErrorCode {
    /// You must be the foreman to perform this action.
    UnauthorizedNotForeman,
    /// Cannot sync gauges at the 0th epoch.
    GaugeEpochCannotBeZero,
    /// The gauge is not set to the current epoch.
    GaugeWrongEpoch,
    /// The start time for the next epoch has not yet been reached.
    NextEpochNotReached,
    /// Must set all votes to 0 before changing votes.
    CannotVoteMustReset,
    /// Cannot vote since gauge is disabled; all you may do is set weight to 0.
    CannotVoteGaugeDisabled,
    /// You have already committed your vote to this gauge.
    VoteAlreadyCommitted,
    /// Cannot commit votes since gauge is disabled; all you may do is set weight to 0.
    CannotCommitGaugeDisabled,
    /// Voting on this epoch gauge is closed.
    EpochGaugeNotVoting,
    /// Gauge voter voting weights have been modified since you started
    /// committing your votes. Please withdraw your votes and try again.
    WeightSeqnoChanged,
    /// You may no longer modify votes for this epoch.
    EpochClosed,
    /// You must have zero allocated power in order to reset the epoch gauge.
    AllocatedPowerMustBeZero,
    /// Keys do not match.
    KeyMismatch,
    /// Integer overflow.
    IntegerOverflow,
    /// Invariant failed.
    InvariantFailed,
}

impl ErrorCode {
    /// What the error says, in words.
    pub open spec fn spec_message(self) -> Seq<char> {
        match self {
            ErrorCode::UnauthorizedNotForeman => "You must be the foreman to perform this action."@,
            ErrorCode::GaugeEpochCannotBeZero => "Cannot sync gauges at the 0th epoch."@,
            ErrorCode::GaugeWrongEpoch => "The gauge is not set to the current epoch."@,
            ErrorCode::NextEpochNotReached =>
                "The start time for the next epoch has not yet been reached."@,
            ErrorCode::CannotVoteMustReset => "Must set all votes to 0 before changing votes."@,
            ErrorCode::CannotVoteGaugeDisabled =>
                "Cannot vote since gauge is disabled; all you may do is set weight to 0."@,
            ErrorCode::VoteAlreadyCommitted =>
                "You have already committed your vote to this gauge."@,
            ErrorCode::CannotCommitGaugeDisabled =>
                "Cannot commit votes since gauge is disabled; all you may do is set weight to 0."@,
            ErrorCode::EpochGaugeNotVoting => "Voting on this epoch gauge is closed."@,
            ErrorCode::WeightSeqnoChanged =>
                "Gauge voter voting weights have been modified since you started committing your votes. Please withdraw your votes and try again."@,
            ErrorCode::EpochClosed => "You may no longer modify votes for this epoch."@,
            ErrorCode::AllocatedPowerMustBeZero =>
                "You must have zero allocated power in order to reset the epoch gauge."@,
            ErrorCode::KeyMismatch => "Keys do not match."@,
            ErrorCode::IntegerOverflow => "Integer overflow."@,
            ErrorCode::InvariantFailed => "Invariant failed."@,
        }
    }

    /// What the error says, in words.
    pub fn message(&self) -> (message: &'static str)
        ensures
            message@ == self.spec_message(),
    {
        match self {
            ErrorCode::UnauthorizedNotForeman => "You must be the foreman to perform this action.",
            ErrorCode::GaugeEpochCannotBeZero => "Cannot sync gauges at the 0th epoch.",
            ErrorCode::GaugeWrongEpoch => "The gauge is not set to the current epoch.",
            ErrorCode::NextEpochNotReached =>
                "The start time for the next epoch has not yet been reached.",
            ErrorCode::CannotVoteMustReset => "Must set all votes to 0 before changing votes.",
            ErrorCode::CannotVoteGaugeDisabled =>
                "Cannot vote since gauge is disabled; all you may do is set weight to 0.",
            ErrorCode::VoteAlreadyCommitted =>
                "You have already committed your vote to this gauge.",
            ErrorCode::CannotCommitGaugeDisabled =>
                "Cannot commit votes since gauge is disabled; all you may do is set weight to 0.",
            ErrorCode::EpochGaugeNotVoting => "Voting on this epoch gauge is closed.",
            ErrorCode::WeightSeqnoChanged =>
                "Gauge voter voting weights have been modified since you started committing your votes. Please withdraw your votes and try again.",
            ErrorCode::EpochClosed => "You may no longer modify votes for this epoch.",
            ErrorCode::AllocatedPowerMustBeZero =>
                "You must have zero allocated power in order to reset the epoch gauge.",
            ErrorCode::KeyMismatch => "Keys do not match.",
            ErrorCode::IntegerOverflow => "Integer overflow.",
            ErrorCode::InvariantFailed => "Invariant failed.",
        }
    }
}

} // verus!
