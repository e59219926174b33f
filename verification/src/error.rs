//! The typed failures of the protocol's operations.

use vstd::prelude::*;

verus! {

/// Why an operation was rejected. A rejected operation changes nothing.
#[derive(Clone, Copy, Debug, PartialEq, Eq, Structural)]
pub enum CustomError {
    /// The caller is not the owner or administrator of the record.
    Unauthorized,
    /// The creator's content list holds no item with the requested id.
    ContentNotFound,
    /// The username is shorter than 3 or longer than 32 bytes, or holds a
    /// character that is neither alphanumeric nor an underscore.
    InvalidUsername,
    /// The fee rate exceeds 10000 basis points.
    InvalidFeePercentage,
    /// A record already exists at the address where one was to be created.
    AlreadyExists,
    /// The paying wallet holds less than a transfer takes from it.
    InsufficientFunds,
    /// An account was passed at another address than the one the protocol
    /// prescribes for it.
    AddressMismatch,
    /// The storage planned for a record cannot be allocated or cannot hold it.
    StorageAllocation,
}

impl CustomError {
    /// The text shown to a user for each failure.
    pub open spec fn message_text(self) -> Seq<char> {
        match self {
            CustomError::Unauthorized => "You are not authorized to perform this action."@,
            CustomError::ContentNotFound =>
                "The specified content was not found in the creator's account."@,
            CustomError::InvalidUsername =>
                "Invalid username. Must be 3-32 characters, alphanumeric or underscore only."@,
            CustomError::InvalidFeePercentage =>
                "Invalid fee percentage. Must be <= 10000 (100%)."@,
            CustomError::AlreadyExists => "A record already exists at the derived address."@,
            CustomError::InsufficientFunds => "The payer's balance does not cover the transfer."@,
            CustomError::AddressMismatch =>
                "An account was not passed at the address the protocol prescribes."@,
            CustomError::StorageAllocation =>
                "The record does not fit the storage planned for it."@,
        }
    }

    /// Renders the failure as text.
    pub fn message(&self) -> (text: String)
        ensures
            text@ == self.message_text(),
    {
        match self {
            CustomError::Unauthorized =>
                "You are not authorized to perform this action.".to_owned(),
            CustomError::ContentNotFound =>
                "The specified content was not found in the creator's account.".to_owned(),
            CustomError::InvalidUsername =>
                "Invalid username. Must be 3-32 characters, alphanumeric or underscore only."
                    .to_owned(),
            CustomError::InvalidFeePercentage =>
                "Invalid fee percentage. Must be <= 10000 (100%).".to_owned(),
            CustomError::AlreadyExists =>
                "A record already exists at the derived address.".to_owned(),
            CustomError::InsufficientFunds =>
                "The payer's balance does not cover the transfer.".to_owned(),
            CustomError::AddressMismatch =>
                "An account was not passed at the address the protocol prescribes.".to_owned(),
            CustomError::StorageAllocation =>
                "The record does not fit the storage planned for it.".to_owned(),
        }
    }
}

} // verus!
