//! The ways an operation can be refused.
use vstd::prelude::*;

verus! {

/// Why an operation was refused. A refused operation changes no state.
#[derive(Clone, Debug, PartialEq, Eq, Structural)]
pub enum ContractError {
    /// A state record that deployment should have stored is missing.
    NotFound,
    /// The resource is already lent out.
    ResourceUnavailable,
    /// The resource is not lent out.
    ResourceNotBorrowed,
    /// A loan must escrow a positive stake.
    ZeroLoan,
    /// No attached coin of the stake denomination reaches `expected`.
    InsufficientFunds { expected: u128 },
    /// The caller is not the current borrower.
    NotBorrower,
    /// The caller is not the ledger's admin.
    Unauthorized,
    /// The credit would take the ledger's total past the largest `u128`.
    Overflow,
    /// No reforestation area has the given id.
    AreaNotFound,
}

} // verus!
