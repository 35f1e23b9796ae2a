//! The pool's error taxonomy. Every operation either fully succeeds or fails
//! with exactly one of these codes; no error is silently recovered.

use vstd::prelude::*;

verus! {

/// The fatal, non-retryable failure codes of the pool.
#[derive(Clone, Copy, Debug, PartialEq, Eq, Structural)]
pub enum CustomError {
    /// A base-currency or token balance lies below the required amount.
    InsufficientFunds,
    /// An account fails the vacant / funded / data-empty check or an
    /// address re-derivation check: a wrong or tampered-with account.
    InvalidAccount,
    /// A swap or deposit was attempted while the pool is deactivated.
    DeactivatePool,
    /// A signer does not match the recorded pool authority.
    InvalidAuthority,
    /// A signer does not match the recorded master authority on a
    /// withdrawal or drain path.
    WithdrawPermission,
    /// A checked arithmetic step would exceed the 64-bit range.
    Overflow,
}

} // verus!
