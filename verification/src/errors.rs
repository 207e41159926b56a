//! The error taxonomy of the bridge core. Every failing operation aborts with
//! one of these kinds and leaves the state untouched.

use vstd::prelude::*;

verus! {

#[derive(Clone, Copy, Debug, PartialEq, Eq, Structural)]
pub enum Error {
    // authorization
    UnauthorizedVault,
    BadOrigin,
    // state machine
    IssueIdNotFound,
    IssueCompleted,
    IssueCancelled,
    RedeemIdNotFound,
    RedeemCompleted,
    RedeemCancelled,
    ReplaceIdNotFound,
    ReplaceCompleted,
    ReplaceCancelled,
    CommitPeriodExpired,
    ReplacePeriodExpired,
    TimeNotExpired,
    ReplacePeriodNotExpired,
    CancelAcceptedRequest,
    NoPendingRequest,
    // economic
    InsufficientCollateral,
    AmountBelowDustAmount,
    ExceedingVaultLimit,
    InsufficientTokensCommitted,
    VaultOverAuctionThreshold,
    InsufficientFunds,
    // lifecycle
    VaultNotFound,
    VaultAlreadyRegistered,
    VaultBanned,
    ParachainNotRunning,
    // payment evidence handed in by the host did not match the request
    InvalidPayment,
    // arithmetic
    ArithmeticOverflow,
    ArithmeticUnderflow,
    TryIntoIntError,
}

} // verus!
