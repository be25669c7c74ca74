use vstd::prelude::*;

verus! {

/// Error kinds surfaced by pool operations.
///
/// Every guard or arithmetic failure aborts the whole operation with one of
/// these kinds before any external transfer, mint or burn may be issued.
#[derive(Clone, Copy, Debug, PartialEq, Eq, Structural)]
pub enum CustomError {
    /// An asset id matches neither of the pool's configured assets.
    InvalidToken,
    /// A zero input amount, or an overflow, underflow or division edge case
    /// in a mutating operation.
    InvalidAmount,
    /// A balance is too small for the requested movement.
    InsufficientFunds,
    /// The pool record itself is not usable.
    InvalidSwapPool,
    /// Retained alongside `Unauthorized` for callers that match on it.
    UnauthorizedAccess,
    /// An executed amount fell below a caller-supplied minimum.
    SlippageExceeded,
    /// A fee rate above the 1000 basis-point cap.
    FeeTooHigh,
    /// A mutating operation was invoked while the pool is paused.
    PoolPaused,
    /// A reserve needed by the computation is zero.
    InsufficientLiquidity,
    /// The caller is not the pool's admin.
    Unauthorized,
    /// An arithmetic failure on a read-only query path.
    CalculationFailure,
}

} // verus!
