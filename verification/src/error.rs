//! The ways in which a call on the contract fails.

use vstd::prelude::*;

verus! {

/// Why a call was refused. A refused call leaves the contract as it was.
#[derive(Clone, Copy, Debug, PartialEq, Eq, Structural)]
pub enum ContractError {
    /// The contract's state exists already.
    AlreadyInitialized,
    /// The contract metadata does not meet its schema.
    InvalidMetadata,
    /// The caller may not do what it asked for.
    Unauthorized,
    /// No token has the given id.
    NotFound,
    /// A token with the given id exists already.
    AlreadyExists,
    /// The receiver of a transfer owns the token already.
    SelfTransfer,
    /// The approval id given with a transfer is not the one that the sender holds.
    StaleApproval,
}

impl ContractError {
    /// The text that goes with each kind of failure.
    pub open spec fn reason_text(self) -> Seq<char> {
        match self {
            ContractError::AlreadyInitialized => "Already initialized"@,
            ContractError::InvalidMetadata => "Invalid contract metadata"@,
            ContractError::Unauthorized => "Unauthorized"@,
            ContractError::NotFound => "Token not found"@,
            ContractError::AlreadyExists => "token_id must be unique"@,
            ContractError::SelfTransfer => "Current and next owner must differ"@,
            ContractError::StaleApproval => "The given approval_id is not the actual approval_id"@,
        }
    }

    /// The reason to show to the caller.
    pub fn reason(&self) -> (s: String)
        ensures
            s@ == self.reason_text(),
    {
        match self {
            ContractError::AlreadyInitialized => "Already initialized".to_owned(),
            ContractError::InvalidMetadata => "Invalid contract metadata".to_owned(),
            ContractError::Unauthorized => "Unauthorized".to_owned(),
            ContractError::NotFound => "Token not found".to_owned(),
            ContractError::AlreadyExists => "token_id must be unique".to_owned(),
            ContractError::SelfTransfer => "Current and next owner must differ".to_owned(),
            ContractError::StaleApproval => {
                "The given approval_id is not the actual approval_id".to_owned()
            },
        }
    }
}

} // verus!
