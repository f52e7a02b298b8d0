use vstd::prelude::*;

verus! {

/// Validation failures shared by all four campaign operations.
///
/// Each one is terminal and non-retryable: the operation that reports it
/// aborts with no state change.
#[derive(Clone, Copy, Debug, PartialEq, Eq, Structural)]
pub enum SolRaiserError {
    /// An amount was zero, or accumulating it would overflow.
    InvalidAmount,
    /// The addressed campaign does not exist or is no longer active.
    CampaignNotActive,
    /// The campaign's deadline has passed, so donations are rejected.
    DeadlineExpired,
    /// The caller is not the campaign's creator.
    InvalidCreator,
    /// The close operation's timing condition does not hold.
    DeadlineNotPassed,
    /// A new campaign's deadline is not in the future.
    InvalidDeadline,
    /// The goal was reached, so the failure-path close is refused.
    GoalNotReached,
    /// The campaign id is empty or longer than the bound.
    InvalidCampaignId,
}

/// How creating a campaign record can fail.
///
/// Validation failures come from the operation body; a storage refusal comes
/// from the record store, which never overwrites an existing record.
#[derive(Clone, Copy, Debug, PartialEq, Eq, Structural)]
pub enum InitializeError {
    /// An input failed validation; the payload says which check failed.
    Rejected(SolRaiserError),
    /// A record already exists under the same (creator, campaign id) key.
    RecordExists,
}

} // verus!
