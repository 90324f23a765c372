//! The ways in which an operation of this library fails.

use vstd::prelude::*;

verus! {

/// Why an operation was refused.
#[derive(Clone, Copy, Debug, PartialEq, Eq, Structural)]
pub enum Error {
    /// Bytes that denote no number below the group order.
    InvalidScalar,
    /// Bytes that encode no point of the curve, or a point that has no
    /// encoding because it is the neutral element.
    InvalidCommitment,
    /// A partial signature that does not match its nonce and key.
    InvalidPartialSignature,
    /// An aggregate signature that does not match the kernel excess.
    KernelMismatch,
    /// A kernel excess that is not the lift of the claimed blinding factor.
    BalanceViolation,
}

} // verus!
