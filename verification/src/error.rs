//! The failures that the pallets and the runtime report.

use crate::types::{AccountId, Balance, BlockNumber, Nonce};
use vstd::prelude::*;

verus! {

/// Why an operation on the ledger was refused. An operation that returns one
/// of these has changed nothing.
#[derive(Debug, PartialEq, Eq)]
pub enum Error {
    /// The block counter is at its largest value and cannot advance.
    BlockNumberOverflow { block_number: BlockNumber },
    /// The nonce of `who` is at its largest value and cannot advance.
    NonceOverflow { nonce: Nonce, who: AccountId },
    /// `caller` holds less than `amount`.
    InsufficientBalance { caller: AccountId, amount: Balance, to: AccountId },
    /// Crediting `amount` to `to` would exceed the largest balance.
    BalanceOverflow { to: AccountId, amount: Balance, caller: AccountId },
    /// A block declared the number `found` where `expected` was due.
    BlockNumberMismatch { expected: BlockNumber, found: BlockNumber },
}

/// What a dispatched call returns.
pub type DispatchResult = Result<(), Error>;

} // verus!
