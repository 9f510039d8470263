//! Error codes of the Tipz ledger.

use vstd::prelude::*;

verus! {

/// Every way an operation of the ledger can be refused.
#[derive(Copy, Clone, Debug, PartialEq, Eq, Structural, PartialOrd, Ord)]
pub enum ContractError {
    NotInitialized,
    AlreadyInitialized,
    NotAuthorized,
    AdminChangeAlreadyPending,
    AdminChangeTimelockNotMet,
    NoPendingAdmin,
    ContractPaused,
    NotRegistered,
    AlreadyRegistered,
    UsernameTaken,
    InvalidUsername,
    InvalidDisplayName,
    InvalidAmount,
    InsufficientBalance,
    BalanceNotZero,
    OverflowError,
    NotFound,
    AlreadyDeactivated,
    ProfileDeactivated,
    ProfileNotDeactivated,
    MessageTooLong,
    InvalidImageUrl,
    BatchTooLarge,
    InvalidFee,
    CannotTipSelf,
    NotVerified,
    AlreadyVerified,
    Unauthorized,
    RateLimitExceeded,
    InvalidXHandle,
    TipBelowMinimum,
    ProfileNotActive,
    /// Tip message contains invalid control characters
    InvalidMessage,
    /// Tip amount is below the creator's custom minimum
    BelowCreatorMinimum,
    /// Domain format is invalid or empty when required
    InvalidDomain,
    /// Generic invalid input error
    InvalidInput,
    /// Token is not in the accepted whitelist
    TokenNotAccepted,
    /// Refund request window has expired
    RefundWindowExpired,
    /// Refund has already been requested for this tip
    RefundAlreadyRequested,
    /// Refund has already been processed
    RefundAlreadyProcessed,
    /// No refund request exists for this tip
    NoRefundRequest,
    /// Only the tipper can request a refund
    NotTipper,
    /// Only the creator can approve/reject a refund
    NotCreator,
}

} // verus!
