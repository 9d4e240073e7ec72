//! Callback commit: the one entry point that accepts the provider's result,
//! tops the record's collateral up from the vault, and stores the text.

use crate::accounts::{Config, Identity, Vault};
use crate::address::{derive_vault, vault_address, Address};
use crate::error::ChatError;
use crate::rent::{shortfall, shortfall_of};
use crate::response::{byte_len, fits, required_bytes, RecordView, Response, ResponseAccount};
use anchor_lang::prelude::Rent;
use vstd::prelude::*;

verus! {

/// The accounts of a callback.
#[derive(Debug, Clone, PartialEq, Eq)]
pub struct Callback {
    pub config: Config,
    /// The account that claims to be the designated authority.
    pub identity: Identity,
    /// The record that the result is written into.
    pub response: ResponseAccount,
    /// The vault that escrows for the record.
    pub vault: Vault,
    /// The account supplied as the currency-transfer service.
    pub system_program: Address,
}

/// What the handler carries out for an accepted callback: the transfer
/// first, then the resize, then the write of the payload.
#[derive(Debug, Clone, Copy, PartialEq, Eq)]
pub struct Commit {
    /// The amount to move from the vault into the record; nothing is moved
    /// where it is zero.
    pub top_up: u64,
    /// The length in bytes to resize the record to.
    pub space: usize,
    /// The bump seed that completes the derivation of the vault's address, by
    /// which this contract signs for the vault.
    pub vault_bump: u8,
}

/// The mathematical value of the accounts of a callback.
pub struct CallbackView {
    pub config: Config,
    pub identity: Identity,
    pub response: RecordView,
    pub vault: Vault,
    pub system_program: Address,
}

impl View for Callback {
    type V = CallbackView;

    open spec fn view(&self) -> CallbackView {
        CallbackView {
            config: self.config,
            identity: self.identity,
            response: self.response@,
            vault: self.vault,
            system_program: self.system_program,
        }
    }
}

impl CallbackView {
    /// The balances of record and vault add up within the currency's range,
    /// and the record keeps its invariant.
    pub open spec fn wf(self) -> bool {
        &&& self.response.wf()
        &&& self.response.lamports + self.vault.lamports <= u64::MAX
    }

    /// The bump of the vault's address, where the record is one that this
    /// contract allocated, the vault is the one derived for it, and the
    /// currency service is the trusted one.
    pub open spec fn vault_bump(self) -> Option<u8> {
        if !self.response.owned || self.system_program != self.config.system_program {
            None
        } else {
            match vault_address(self.response.key@, self.config.program@) {
                Some((address, bump)) => if address == self.vault.key@ {
                    Some(bump)
                } else {
                    None
                },
                None => None,
            }
        }
    }

    /// What the vault owes the record for `text`: the collateral of the size
    /// that `text` needs, less the collateral of the size the record has, and
    /// nothing where that is not positive.
    pub open spec fn top_up(self, rent: Rent, text: Seq<char>) -> Option<u64> {
        shortfall_of(rent, self.response.data_len, required_bytes(byte_len(text)) as usize)
    }

    /// Why the callback is rejected, if it is. The authorization gate comes
    /// before everything else, the addresses before any payment.
    pub open spec fn rejection(self, rent: Rent, text: Seq<char>) -> Option<ChatError> {
        if !self.identity.authorized(self.config) {
            Some(ChatError::InvalidOracleIdentity)
        } else if self.vault_bump() is None {
            Some(ChatError::AddressMismatch)
        } else {
            match self.top_up(rent, text) {
                None => Some(ChatError::InsufficientFunds),
                Some(due) => if self.vault.lamports < due {
                    Some(ChatError::InsufficientFunds)
                } else {
                    None
                },
            }
        }
    }

    /// The plan of an accepted callback.
    pub open spec fn plan(self, rent: Rent, text: Seq<char>) -> Commit {
        Commit {
            top_up: self.top_up(rent, text).unwrap(),
            space: required_bytes(byte_len(text)) as usize,
            vault_bump: self.vault_bump().unwrap(),
        }
    }

    /// The accounts after an accepted callback: the vault has paid the
    /// top-up into the record, and the record has the size that `text` needs
    /// and holds `text`.
    pub open spec fn after(self, rent: Rent, text: Seq<char>) -> CallbackView {
        let due = self.top_up(rent, text).unwrap();
        CallbackView {
            config: self.config,
            identity: self.identity,
            response: self.response.committed(text, due),
            vault: Vault { key: self.vault.key, lamports: (self.vault.lamports - due) as u64 },
            system_program: self.system_program,
        }
    }

    /// What a callback does: the rejection, or the accounts after it and its
    /// plan.
    pub open spec fn outcome(self, rent: Rent, text: Seq<char>) -> Result<(CallbackView, Commit), ChatError> {
        match self.rejection(rent, text) {
            Some(error) => Err(error),
            None => Ok((self.after(rent, text), self.plan(rent, text))),
        }
    }
}

impl Callback {
    /// Whether the accounts meet what [`Callback::callback`] requires.
    pub fn is_wf(&self) -> (ok: bool)
        ensures
            ok == self@.wf(),
    {
        self.response.is_wf() && self.response.lamports.checked_add(self.vault.lamports).is_some()
    }

    /// Commits the provider's result `ai_response` into the record.
    ///
    /// On success the accounts are updated to what they hold once the returned
    /// plan has been carried out. A rejected call changes nothing.
    pub fn callback(&mut self, ai_response: String, rent: &Rent) -> (result: Result<Commit, ChatError>)
        requires
            old(self)@.wf(),
            fits(ai_response@),
        ensures
            match result {
                Ok(commit) => old(self)@.outcome(*rent, ai_response@) == Ok::<
                    (CallbackView, Commit),
                    ChatError,
                >((final(self)@, commit)),
                Err(error) => old(self)@.outcome(*rent, ai_response@) == Err::<
                    (CallbackView, Commit),
                    ChatError,
                >(error) && *final(self) == *old(self),
            },
            final(self)@.wf(),
    {
        if !self.identity.is_authorized(&self.config) {
            return Err(ChatError::InvalidOracleIdentity);
        }
        if !self.response.owned || !self.system_program.matches(&self.config.system_program) {
            return Err(ChatError::AddressMismatch);
        }
        let vault_bump = match derive_vault(&self.response.key, &self.config.program) {
            Some((address, bump)) => {
                if !address.matches(&self.vault.key) {
                    return Err(ChatError::AddressMismatch);
                }
                bump
            },
            None => {
                return Err(ChatError::AddressMismatch);
            },
        };
        let required_space = Response::space(ai_response.as_str());
        let current_space = self.response.data_len;
        let additional_rent = match shortfall(rent, current_space, required_space) {
            Some(due) => due,
            None => {
                return Err(ChatError::InsufficientFunds);
            },
        };
        if self.vault.lamports < additional_rent {
            return Err(ChatError::InsufficientFunds);
        }
        self.vault.lamports = self.vault.lamports - additional_rent;
        self.response.lamports = self.response.lamports + additional_rent;
        self.response.data_len = required_space;
        self.response.data.response = ai_response;
        Ok(Commit { top_up: additional_rent, space: required_space, vault_bump })
    }
}

} // verus!
