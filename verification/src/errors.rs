//! The closed set of failures an operation can surface.

use vstd::prelude::*;

verus! {

/// Every way an operation on the ledger can fail.
///
/// Errors are plain values carried in a `Result`; no operation panics and no
/// failure is swallowed, except that the oracle fallback retries the
/// secondary source on any primary failure.
#[derive(Clone, Copy, Debug, PartialEq, Eq, Structural)]
pub enum SaiError {
    AlreadyInitialized,
    Unauthorized,
    InsufficientBalance,
    ExceedsMaxSupply,
    InvalidAmount,
    SwapNotFound,
    ArithmeticOverflow,
    ReentrancyDetected,
    ContractPaused,
    StalePrice,
    OracleError,
}

} // verus!
