//! The ways in which a ledger operation is refused.

use vstd::prelude::*;

verus! {

/// Why a transfer was refused. A refused operation changes nothing.
#[derive(Clone, Copy, Debug, PartialEq, Eq)]
pub enum TokenError {
    /// The source account holds less than the amount to move.
    InsufficientBalance,
    /// The spender may draw less from the owner than the amount to move.
    InsufficientAllowance,
}

} // verus!
