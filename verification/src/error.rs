//! The ways in which a call is rejected.

use vstd::prelude::*;

verus! {

/// The operations that ask for a principal.
#[derive(Clone, Copy, Debug, PartialEq, Eq, Structural)]
pub enum Operation {
    /// Replacing the allow-list.
    SetViewers,
    /// Replacing the secret payload.
    SetSecretVariables,
    /// Minting a viewing key.
    GenerateViewingKey,
    /// Reading the secret payload.
    GetSecretVariables,
    /// Presenting a viewing key.
    CheckViewingKey,
}

/// Why a call was rejected. A rejected call changes nothing.
#[derive(Clone, Copy, Debug, PartialEq, Eq, Structural)]
pub enum ContractError {
    /// The caller is not the principal that the operation asks for, or the
    /// presented viewing key does not verify.
    Unauthorized(Operation),
    /// The instance was used before it was initialized.
    NotFound,
    /// The instance was initialized a second time.
    AlreadyInitialized,
    /// An identity could not be brought into canonical form.
    Malformed,
}

impl ContractError {
    /// The text of the message that goes with a rejection. It is one of a
    /// few fixed sentences: no payload, no viewing key and no seed can be
    /// part of it.
    pub open spec fn message_text(&self) -> Seq<char> {
        match self {
            ContractError::Unauthorized(Operation::SetViewers) => "Only the owner can set viewers"@,
            ContractError::Unauthorized(Operation::SetSecretVariables) => {
                "Only the owner can set secret variables"@
            },
            ContractError::Unauthorized(Operation::GenerateViewingKey) => {
                "Only allowed viewers can generate viewing keys"@
            },
            ContractError::Unauthorized(Operation::GetSecretVariables) => {
                "Only allowed viewers can query secret variables"@
            },
            ContractError::Unauthorized(Operation::CheckViewingKey) => "unauthorized"@,
            ContractError::NotFound => "State not found"@,
            ContractError::AlreadyInitialized => "State already initialized"@,
            ContractError::Malformed => "Invalid address"@,
        }
    }

    /// The human-readable message that goes with a rejection.
    pub fn message(&self) -> (text: String)
        ensures
            text@ == self.message_text(),
    {
        let text = match self {
            ContractError::Unauthorized(Operation::SetViewers) => "Only the owner can set viewers",
            ContractError::Unauthorized(Operation::SetSecretVariables) => {
                "Only the owner can set secret variables"
            },
            ContractError::Unauthorized(Operation::GenerateViewingKey) => {
                "Only allowed viewers can generate viewing keys"
            },
            ContractError::Unauthorized(Operation::GetSecretVariables) => {
                "Only allowed viewers can query secret variables"
            },
            ContractError::Unauthorized(Operation::CheckViewingKey) => "unauthorized",
            ContractError::NotFound => "State not found",
            ContractError::AlreadyInitialized => "State already initialized",
            ContractError::Malformed => "Invalid address",
        };
        text.to_owned()
    }

    /// Whether the rejection is for want of authority.
    pub fn is_unauthorized(&self) -> (unauthorized: bool)
        ensures
            unauthorized == (*self is Unauthorized),
    {
        match self {
            ContractError::Unauthorized(_) => true,
            _ => false,
        }
    }
}

} // verus!
