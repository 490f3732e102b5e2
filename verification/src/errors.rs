//! The conditions under which an operation is refused.

use vstd::prelude::*;

verus! {

/// Why an operation on a group or a bank was refused.
#[derive(Clone, Copy, Debug, PartialEq, Eq, Structural)]
pub enum MarginfiError {
    /// A step overflowed, divided by zero, or produced an unrepresentable
    /// value.
    MathError,
    /// A deposit would bring the pool to or above its capacity.
    BankDepositCapacityExceeded,
    /// A transfer does not lead to the bank's liquidity vault.
    InvalidTransfer,
    /// No price account was supplied for the bank's oracle.
    MissingPythAccount,
    /// The price account supplied is not the bank's oracle.
    InvalidPythAccount,
}

/// The result of an operation that can be refused.
pub type MarginfiResult<T> = Result<T, MarginfiError>;

} // verus!
