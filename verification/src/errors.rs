//! Error taxonomy of the engine.
//!
//! Every operation checks its preconditions synchronously and aborts with
//! one of these errors, leaving all records unchanged: malformed input,
//! wrong lifecycle state, a caller that is not the required identity,
//! arithmetic that would overflow its width, or a repeated claim.

use vstd::prelude::*;

verus! {

/// Reason an operation aborted with no state change.
#[derive(PartialEq, Eq, Structural, Clone, Copy, Debug)]
pub enum CypherCastError {
    /// The stream is not active.
    StreamNotActive,
    /// The stream is still active.
    StreamStillActive,
    /// The stake amount is zero.
    InvalidStakeAmount,
    /// The choice index is out of range.
    InvalidChoice,
    /// The title exceeds the length bound.
    TitleTooLong,
    /// The caller is not the required identity.
    Unauthorized,
    /// The reward was already claimed.
    RewardAlreadyClaimed,
    /// The stream is not resolved.
    NotResolved,
    /// The prediction did not pick the winning choice.
    NotWinner,
    /// The stream is already resolved.
    AlreadyResolved,
    /// An addition, subtraction or multiplication would overflow.
    Overflow,
    /// No stake stands behind the winning choice.
    NoWinner,
    /// The tip rate or precision is out of range.
    InvalidConfig,
    /// The submission window is closed.
    StreamLocked,
    /// The stream has been canceled.
    Canceled,
    /// The stream is already canceled.
    AlreadyCanceled,
    /// The refund was already claimed.
    RefundAlreadyClaimed,
    /// The stream is already activated.
    AlreadyActivated,
}

} // verus!
