//! Errors of the contract's operations.

use vstd::prelude::*;

verus! {

/// Why an operation was refused. Every refusal leaves the state as it was.
#[derive(Clone, Copy, Debug, PartialEq, Eq, Structural)]
pub enum ContractError {
    /// The seed given at initialisation has the wrong length.
    InvalidSeed,
    /// The entropy given to mint a viewing key has the wrong length.
    InvalidEntropy,
    /// The caller is not the owner.
    NotAllowed,
    /// The entropy was already used to mint a viewing key.
    EntropyAlreadyUsed,
    /// The viewer to revoke holds no viewing key.
    KeyNotFound,
    /// No identity and key pair of a query was accepted.
    KeyMismatch,
}

impl ContractError {
    /// The message reported to the caller.
    pub open spec fn spec_message(&self) -> Seq<char> {
        match self {
            ContractError::InvalidSeed => "You need to provide valid seed"@,
            ContractError::InvalidEntropy => "You need to provide valid entropy"@,
            ContractError::NotAllowed => "You are not allowed"@,
            ContractError::EntropyAlreadyUsed => "You need to use another entropy"@,
            ContractError::KeyNotFound => "Viewing key not exists"@,
            ContractError::KeyMismatch => "Your viewing key does not matched"@,
        }
    }

    /// Returns the message reported to the caller.
    pub fn message(&self) -> (r: &'static str)
        ensures
            r@ == self.spec_message(),
    {
        match self {
            ContractError::InvalidSeed => "You need to provide valid seed",
            ContractError::InvalidEntropy => "You need to provide valid entropy",
            ContractError::NotAllowed => "You are not allowed",
            ContractError::EntropyAlreadyUsed => "You need to use another entropy",
            ContractError::KeyNotFound => "Viewing key not exists",
            ContractError::KeyMismatch => "Your viewing key does not matched",
        }
    }
}

} // verus!
