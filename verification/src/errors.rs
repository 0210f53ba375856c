//! The error taxonomy of the pool: every rejected or aborted operation
//! reports exactly one of these reasons, and the caller's state is left
//! untouched.

use vstd::prelude::*;

verus! {

/// Why an operation was rejected or aborted.
///
/// Operations are all-or-nothing: a function that returns one of these has
/// changed nothing.
#[derive(Clone, Copy, Debug, PartialEq, Eq, Structural)]
pub enum AmmError {
    /// The caller lacks the authority for a permissioned call.
    PermissionDenied,
    /// The operation is not allowed in the pool's current lifecycle state.
    InvalidState,
    /// A payment carries the wrong asset, a zero amount, an unexpected
    /// nonce, or the wrong number of payments was supplied.
    BadPayment,
    /// An argument fails validation (a zero slippage minimum, fee
    /// percentages out of range, identical pair assets).
    InvalidArguments,
    /// A reserve is zero, would be fully drained, or cannot back the
    /// requested amount.
    InsufficientLiquidity,
    /// A computed amount violates a caller-specified minimum.
    SlippageExceeded,
    /// An exact result does not fit the machine representation of an
    /// amount.
    AmountOverflow,
    /// The constant-product check failed after a state change: a logic
    /// defect, the whole operation aborts.
    InvariantViolation,
    /// A fee slice has no resolution path; the whole distribution aborts.
    FeeUnresolvable,
}

} // verus!
