//! The ways a transition can be refused.

use cosmwasm_std::StdError;
use vstd::prelude::*;

verus! {

/// `cosmwasm_std::StdError`, carried through as an opaque value.
#[verifier::external_type_specification]
#[verifier::external_body]
pub struct ExStdError(StdError);

/// Why a transition was refused. A refused transition leaves the ledger as it was.
#[derive(Debug, PartialEq)]
pub enum ContractError {
    /// An outbound message could not be encoded.
    Std(StdError),
    /// A withdrawal was asked for by someone other than the owner.
    Unauthorized,
    /// A purchase came with no payment in the ledger's denomination.
    IncorrectFunds,
    /// A purchase was attempted while the price is zero.
    DivideByZeroError,
    /// A purchase asked for more credited tokens than the ledger holds.
    SubtractionError,
}

/// Which refusal a [`ContractError`] is.
pub enum ErrorKind {
    Std,
    Unauthorized,
    IncorrectFunds,
    DivideByZero,
    Subtraction,
}

impl View for ContractError {
    type V = ErrorKind;

    open spec fn view(&self) -> ErrorKind {
        match *self {
            ContractError::Std(_) => ErrorKind::Std,
            ContractError::Unauthorized => ErrorKind::Unauthorized,
            ContractError::IncorrectFunds => ErrorKind::IncorrectFunds,
            ContractError::DivideByZeroError => ErrorKind::DivideByZero,
            ContractError::SubtractionError => ErrorKind::Subtraction,
        }
    }
}

} // verus!
