//! Opening a conversation with the provider under the agent's description.

use crate::accounts::{Config, Payer};
use crate::address::Address;
use crate::error::ChatError;
use vstd::prelude::*;

verus! {

/// How the agent is described to the provider.
pub const AGENT_DESC: &'static str = "You are a helpful assistant.";

/// The accounts of a call that opens a conversation.
#[derive(Debug, Clone, Copy, PartialEq, Eq)]
pub struct Initialize {
    pub config: Config,
    /// The requester, who pays the provider for the conversation's storage.
    pub user: Payer,
    /// The account supplied as the provider contract.
    pub oracle_program: Address,
    /// The account supplied as the currency-transfer service.
    pub system_program: Address,
}

/// What the provider is handed to open a conversation.
#[derive(Debug, Clone, PartialEq, Eq)]
pub struct ChatCreation {
    /// The agent's description.
    pub text: String,
    /// The requester's name for the conversation.
    pub seed: u8,
}

impl Initialize {
    /// Why the call is rejected, if it is.
    pub open spec fn rejection(self) -> Option<ChatError> {
        if !self.user.is_signer {
            Some(ChatError::MissingSignature)
        } else if self.oracle_program != self.config.oracle_program || self.system_program
            != self.config.system_program {
            Some(ChatError::AddressMismatch)
        } else {
            None
        }
    }

    /// Decides whether the conversation `seed` may be opened, and with what
    /// the provider is to be called.
    pub fn initialize(&self, seed: u8) -> (result: Result<ChatCreation, ChatError>)
        ensures
            match result {
                Ok(creation) => self.rejection() is None && creation.text@ == AGENT_DESC@
                    && creation.seed == seed,
                Err(error) => self.rejection() == Some(error),
            },
    {
        if !self.user.is_signer {
            return Err(ChatError::MissingSignature);
        }
        if !self.oracle_program.matches(&self.config.oracle_program) || !self.system_program.matches(
            &self.config.system_program,
        ) {
            return Err(ChatError::AddressMismatch);
        }
        Ok(ChatCreation { text: AGENT_DESC.to_owned(), seed })
    }
}

} // verus!
