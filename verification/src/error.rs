//! Why an operation was refused.

use vstd::prelude::*;

verus! {

/// The reason an operation was refused. A refused operation changes nothing.
#[derive(Clone, Copy, Debug, PartialEq, Eq, Structural)]
pub enum EscrowError {
    /// The escrow is not in a status from which the operation may start.
    InvalidStatus,
    /// The caller is not the party that may perform the operation.
    Unauthorized,
    /// The quality score is above 100.
    InvalidQualityScore,
    /// The refund percentage is above 100.
    InvalidRefundPercentage,
    /// The co-submitted verification record does not vouch for the attestation.
    InvalidSignature,
    /// The time lock is shorter than an hour or longer than thirty days.
    InvalidTimeLock,
    /// The amount is below the smallest escrow.
    InvalidAmount,
    /// The transaction identifier is empty or longer than 64 bytes.
    InvalidTransactionId,
    /// Someone other than the agent asked for release before expiry.
    TimeLockNotExpired,
    /// The dispute was filed at or after expiry.
    DisputeWindowExpired,
    /// The amount is above the largest escrow.
    AmountTooLarge,
    /// The agent's balance does not cover the cost of disputing.
    InsufficientDisputeFunds,
    /// The entity has used up its allowance for the current hour or day.
    RateLimitExceeded,
    /// The provider is suspended.
    ProviderSuspended,
    /// The entity's reputation is too low for the operation.
    ReputationTooLow,
    /// A fund amount could not be represented.
    ArithmeticOverflow,
    /// The amount does not cover the reserve that keeps the holding account alive.
    InsufficientRentReserve,
    /// The oracle feed could not be read.
    InvalidSwitchboardAttestation,
    /// The oracle feed was updated more than 300 seconds ago, or in the future.
    StaleAttestation,
    /// The oracle feed publishes another value than the submitted quality score.
    QualityScoreMismatch,
}

} // verus!
