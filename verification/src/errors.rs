//! The protocol's error taxonomy.
//!
//! Every operation aborts with exactly one of these; authorization failures
//! carry a distinguishable kind per violated role so a caller can tell which
//! role check failed.

use vstd::prelude::*;

verus! {

/// Why an operation was refused. Every error aborts the whole operation with
/// no partial effect on the pool or the record.
#[derive(Clone, Copy, Debug, PartialEq, Eq, Structural)]
pub enum HandshakeError {
    /// Checked arithmetic on a ledger counter overflowed or underflowed.
    MathOverflow,
    /// The record is no longer `Active`; it already reached a terminal status.
    TransferNotActive,
    /// The current time is outside the record's claim window, or expiry was
    /// attempted before the deadline passed.
    CannotClaim,
    /// Release conditions were supplied but not met (reserved; never raised).
    ConditionsNotMet,
    /// Invalid release-condition parameters (reserved; never raised).
    InvalidCondition,
    /// The requested withdrawal exceeds the pool's token balance.
    InsufficientFunds,
    /// The pool's paused flag blocked creation, or an emergency destroy was
    /// attempted while the pool was not paused.
    PoolPaused,
    /// The caller is not the pool operator.
    Unauthorized,
    /// The claim window bounds are inconsistent or already in the past.
    InvalidTimeWindow,
    /// The escrowed amount must be positive.
    DepositTooSmall,
    /// The fee rate exceeds 100%.
    InvalidFeeConfig,
    /// A transfer fee was invalid.
    InvalidTransferFee,
    /// The transfer was already claimed.
    TransferAlreadyClaimed,
    /// The transfer was already cancelled.
    TransferAlreadyCancelled,
    /// The transfer was already rejected.
    TransferAlreadyRejected,
    /// The transfer's claim deadline has passed.
    TransferExpired,
    /// Only the original sender may cancel.
    OnlySenderCanCancel,
    /// Only the designated recipient may claim.
    OnlyRecipientCanClaim,
    /// Only the pool operator may reject.
    OnlyOperatorCanReject,
    /// The memo exceeds the fixed memo size.
    InvalidMemoLength,
    /// The claim deadline has not passed yet.
    ClaimDeadlineNotPassed,
    /// A fee or settlement computation failed; also raised when there are no
    /// collected fees to sweep.
    CalculationError,
    /// A required account was missing.
    MissingAccount,
    /// The supplied asset does not match the pool's asset.
    InvalidMint,
    /// The pool value is stale.
    StalePoolValue,
    /// The operation is invalid for this pool.
    InvalidOperation,
    /// The pool still has unresolved transfers, which block destructive
    /// administrative operations.
    OutstandingTransfers,
    /// The record does not belong to the supplied pool.
    InvalidTransfer,
    /// The transfer was already declined.
    TransferAlreadyDeclined,
    /// Only the designated recipient may decline.
    OnlyRecipientCanDecline,
}

} // verus!
