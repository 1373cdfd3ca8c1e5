use gauge::error::ErrorCode;

#[test]
fn errors_say_what_went_wrong() {
    assert_eq!(
        ErrorCode::UnauthorizedNotForeman.message(),
        "You must be the foreman to perform this action."
    );
    assert_eq!(ErrorCode::GaugeEpochCannotBeZero.message(), "Cannot sync gauges at the 0th epoch.");
    assert_eq!(ErrorCode::GaugeWrongEpoch.message(), "The gauge is not set to the current epoch.");
    assert_eq!(
        ErrorCode::NextEpochNotReached.message(),
        "The start time for the next epoch has not yet been reached."
    );
    assert_eq!(
        ErrorCode::CannotVoteMustReset.message(),
        "Must set all votes to 0 before changing votes."
    );
    assert_eq!(
        ErrorCode::CannotVoteGaugeDisabled.message(),
        "Cannot vote since gauge is disabled; all you may do is set weight to 0."
    );
    assert_eq!(
        ErrorCode::VoteAlreadyCommitted.message(),
        "You have already committed your vote to this gauge."
    );
    assert_eq!(
        ErrorCode::CannotCommitGaugeDisabled.message(),
        "Cannot commit votes since gauge is disabled; all you may do is set weight to 0."
    );
    assert_eq!(ErrorCode::EpochGaugeNotVoting.message(), "Voting on this epoch gauge is closed.");
    assert_eq!(
        ErrorCode::WeightSeqnoChanged.message(),
        "Gauge voter voting weights have been modified since you started committing your votes. Please withdraw your votes and try again."
    );
    assert_eq!(ErrorCode::EpochClosed.message(), "You may no longer modify votes for this epoch.");
    assert_eq!(
        ErrorCode::AllocatedPowerMustBeZero.message(),
        "You must have zero allocated power in order to reset the epoch gauge."
    );
    assert_eq!(ErrorCode::KeyMismatch.message(), "Keys do not match.");
    assert_eq!(ErrorCode::IntegerOverflow.message(), "Integer overflow.");
    assert_eq!(ErrorCode::InvariantFailed.message(), "Invariant failed.");
}
