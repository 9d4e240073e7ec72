//! The accounts that a call of the protocol is handed, as plain values.

use crate::address::Address;
use vstd::prelude::*;

verus! {

/// The addresses that a deployment of the protocol trusts. They are handed
/// to every context when it is built, so that the protocol can run against
/// any provider.
#[derive(Debug, Clone, Copy, PartialEq, Eq)]
pub struct Config {
    /// This contract: the owner of response records and vaults, and the
    /// program that the provider calls back.
    pub program: Address,
    /// The provider contract that performs the inference.
    pub oracle_program: Address,
    /// The designated authority whose signature admits a callback.
    pub oracle_identity: Address,
    /// The platform's currency-transfer service.
    pub system_program: Address,
    /// The selector by which the provider names the callback entry point.
    pub callback_discriminator: [u8; 8],
}

/// The requester of an inference, who pays for it.
#[derive(Debug, Clone, Copy, PartialEq, Eq)]
pub struct Payer {
    pub key: Address,
    /// Whether the requester signed the transaction that carries the call.
    pub is_signer: bool,
    pub lamports: u64,
}

/// The account that claims to be the designated authority.
#[derive(Debug, Clone, Copy, PartialEq, Eq)]
pub struct Identity {
    pub key: Address,
    /// Whether this account signed the transaction that carries the call.
    pub is_signer: bool,
}

/// The escrow vault of one response record.
#[derive(Debug, Clone, Copy, PartialEq, Eq)]
pub struct Vault {
    pub key: Address,
    pub lamports: u64,
}

/// An account that the provider hands back to the callback, with the access
/// that the callback needs to it.
#[derive(Debug, Clone, Copy, PartialEq, Eq)]
pub struct AccountMeta {
    pub pubkey: Address,
    pub is_signer: bool,
    pub is_writable: bool,
}

impl Identity {
    /// The authorization gate: the account is the designated authority of
    /// `config` and signed the transaction.
    pub open spec fn authorized(self, config: Config) -> bool {
        self.is_signer && self.key == config.oracle_identity
    }

    /// Decides the authorization gate afresh for this call.
    pub fn is_authorized(&self, config: &Config) -> (yes: bool)
        ensures
            yes == self.authorized(*config),
    {
        self.is_signer && self.key.matches(&config.oracle_identity)
    }
}

} // verus!
