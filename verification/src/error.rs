//! The ways in which a call of the protocol is rejected.

use vstd::prelude::*;

verus! {

/// Why a call was rejected. Every rejection leaves all state as it was.
#[derive(Debug, Clone, Copy, PartialEq, Eq, Structural)]
pub enum ChatError {
    /// A callback arrived without the signature of the designated authority.
    InvalidOracleIdentity,
    /// A request arrived without the signature of the requester.
    MissingSignature,
    /// A supplied account is not the one the protocol expects in its place:
    /// the wrong provider or currency service, an address that is not the
    /// required derivation, or a response account this contract never allocated.
    AddressMismatch,
    /// The requester or the vault cannot cover what the call has to pay, or
    /// the collateral of a size is beyond what the rent schedule can price.
    InsufficientFunds,
}

impl ChatError {
    /// The text shown to a caller for this rejection.
    pub fn message(&self) -> (text: &'static str)
        ensures
            text@ == self.spec_message()@,
    {
        match self {
            ChatError::InvalidOracleIdentity => "Invalid account or oracle sent the callback!",
            ChatError::MissingSignature => "The requester did not sign the request!",
            ChatError::AddressMismatch => "An account does not match the address the protocol expects!",
            ChatError::InsufficientFunds => "Not enough funds to cover the storage collateral or the prepayment!",
        }
    }

    /// The text of each rejection.
    pub open spec fn spec_message(&self) -> &'static str {
        match self {
            ChatError::InvalidOracleIdentity => "Invalid account or oracle sent the callback!",
            ChatError::MissingSignature => "The requester did not sign the request!",
            ChatError::AddressMismatch => "An account does not match the address the protocol expects!",
            ChatError::InsufficientFunds => "Not enough funds to cover the storage collateral or the prepayment!",
        }
    }
}

} // verus!
