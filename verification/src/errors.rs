//! The error taxonomy of the pool.
//!
//! Every error is fatal to the operation that raised it: the operation
//! returns the error and leaves the pool exactly as it found it.

use vstd::prelude::*;

verus! {

/// Why an operation was refused. No error leaves partial state behind.
#[derive(Clone, Copy, Debug, PartialEq, Eq, Structural)]
pub enum Error {
    /// A payment token does not match the pool's token pair, or a token
    /// identifier is unusable (unset, or colliding with another pool token).
    InvalidToken,
    /// An amount that must be positive was zero.
    ZeroAmount,
    /// The pool's activation state does not permit liquidity operations.
    InactiveState,
    /// The pool's activation state does not permit swaps.
    SwapNotEnabled,
    /// A caller-supplied minimum was not reached, or a maximum was exceeded.
    SlippageExceeded,
    /// A reserve is too small to serve the request.
    InsufficientReserve,
    /// The constant-product check failed. With correct arithmetic this is
    /// never reached; it is kept as a hard safety gate.
    InvariantViolation,
    /// The caller is not allowed to perform a privileged operation.
    PermissionDenied,
    /// The pool already holds initial liquidity.
    AlreadySeeded,
    /// The pool holds no liquidity yet.
    NotSeeded,
}

} // verus!
