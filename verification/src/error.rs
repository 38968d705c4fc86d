//! The ways in which a request to the vault can fail.

use vstd::prelude::*;

verus! {

/// Why a request was turned down. Every failure ends the request: nothing of
/// it is applied, and trying again is up to the caller.
#[derive(Clone, Copy, Debug, PartialEq, Eq)]
pub enum VaultError {
    /// The records of this token mint exist already.
    RecordAlreadyExists,
    /// The vault of this token mint was never initialized.
    RecordNotFound,
    /// The ledger found too small a balance on the account to be debited.
    InsufficientFunds,
    /// The depositor holds fewer shares than the withdrawal burns.
    InsufficientShares,
    /// The withdrawal asks for more than the vault holds unallocated.
    InsufficientLiquidity,
    /// A counter would pass the largest value it can hold, or a share price
    /// would have to be taken over zero assets.
    ArithmeticOverflow,
    /// A counter would fall below zero.
    ArithmeticUnderflow,
    /// The ledger did not accept the authority presented for a movement.
    Unauthorized,
    /// The pool list does not fit the storage reserved for a vault record.
    CapacityExceeded,
    /// Two pools of the list have the same name.
    DuplicatePoolId,
}

} // verus!
