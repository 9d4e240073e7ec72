//! Request admission: the record is allocated if it is not yet, the provider
//! is asked for the inference, and the vault is prepaid.

use crate::accounts::{AccountMeta, Config, Payer, Vault};
use crate::address::{derive_response, derive_vault, response_address, vault_address, Address};
use crate::error::ChatError;
use crate::rent::{collateral_of, required_collateral};
use crate::response::{RecordView, Response, ResponseAccount, BASELINE_BYTES};
use anchor_lang::prelude::Rent;
use vstd::prelude::*;

verus! {

/// What every admission pays into the vault, to cover the growth of the
/// record when the result arrives.
pub const PREPAYMENT_LAMPORTS: u64 = 5_000_000;

/// The accounts of an admission call.
#[derive(Debug, Clone, PartialEq, Eq)]
pub struct AiInference {
    pub config: Config,
    /// The requester, who pays the allocation and the prepayment.
    pub user: Payer,
    /// The record that will hold the result.
    pub response: ResponseAccount,
    /// The vault that escrows for the record.
    pub vault: Vault,
    /// The account supplied as the provider contract.
    pub oracle_program: Address,
    /// The account supplied as the currency-transfer service.
    pub system_program: Address,
}

/// The first allocation of a record, paid by the requester and authorized by
/// the record's own derivation.
#[derive(Debug, Clone, Copy, PartialEq, Eq)]
pub struct Allocation {
    /// The allocated length in bytes.
    pub space: usize,
    /// The collateral that the requester pays into the record.
    pub lamports: u64,
    /// The bump seed that completes the derivation of the record's address.
    pub bump: u8,
}

/// What the provider is handed with a request.
#[derive(Debug, Clone, PartialEq, Eq)]
pub struct InferenceRequest {
    /// The payload to run the inference on.
    pub text: String,
    /// The requester's choice among their conversations with the provider.
    pub seed: u8,
    /// The contract that the provider calls back.
    pub callback_program: Address,
    /// The selector of the entry point that it calls there.
    pub callback_discriminator: [u8; 8],
    /// The accounts that it hands back to that entry point, in this order.
    pub account_metas: Vec<AccountMeta>,
}

/// What the handler carries out for an admitted request, in this order.
#[derive(Debug, Clone, PartialEq, Eq)]
pub struct Admission {
    /// The allocation of the record, where it did not exist.
    pub allocation: Option<Allocation>,
    /// The call to the provider.
    pub request: InferenceRequest,
    /// The amount to move from the requester into the vault.
    pub prepayment: u64,
}

/// The mathematical value of a request to the provider.
pub struct RequestView {
    pub text: Seq<char>,
    pub seed: u8,
    pub callback_program: Address,
    pub callback_discriminator: [u8; 8],
    pub account_metas: Seq<AccountMeta>,
}

/// The mathematical value of an admission plan.
pub struct AdmissionView {
    pub allocation: Option<Allocation>,
    pub request: RequestView,
    pub prepayment: u64,
}

/// The mathematical value of the accounts of an admission call.
pub struct AiInferenceView {
    pub config: Config,
    pub user: Payer,
    pub response: RecordView,
    pub vault: Vault,
    pub oracle_program: Address,
    pub system_program: Address,
}

impl View for InferenceRequest {
    type V = RequestView;

    open spec fn view(&self) -> RequestView {
        RequestView {
            text: self.text@,
            seed: self.seed,
            callback_program: self.callback_program,
            callback_discriminator: self.callback_discriminator,
            account_metas: self.account_metas@,
        }
    }
}

impl View for Admission {
    type V = AdmissionView;

    open spec fn view(&self) -> AdmissionView {
        AdmissionView {
            allocation: self.allocation,
            request: self.request@,
            prepayment: self.prepayment,
        }
    }
}

impl View for AiInference {
    type V = AiInferenceView;

    open spec fn view(&self) -> AiInferenceView {
        AiInferenceView {
            config: self.config,
            user: self.user,
            response: self.response@,
            vault: self.vault,
            oracle_program: self.oracle_program,
            system_program: self.system_program,
        }
    }
}

/// The accounts that the provider hands back to the callback: the record and
/// the vault, both to be written, and the currency-transfer service.
pub open spec fn callback_accounts(response: Address, vault: Address, system_program: Address) -> Seq<
    AccountMeta,
> {
    seq![
        AccountMeta { pubkey: response, is_signer: false, is_writable: true },
        AccountMeta { pubkey: vault, is_signer: false, is_writable: true },
        AccountMeta { pubkey: system_program, is_signer: false, is_writable: false },
    ]
}

impl AiInferenceView {
    /// The balances of one call add up within the currency's range, and the
    /// record keeps its invariant.
    pub open spec fn wf(self) -> bool {
        &&& self.response.wf()
        &&& self.user.lamports + self.response.lamports + self.vault.lamports <= u64::MAX
    }

    /// Whether the supplied provider and currency service are the trusted ones.
    pub open spec fn services_match(self) -> bool {
        &&& self.oracle_program == self.config.oracle_program
        &&& self.system_program == self.config.system_program
    }

    /// The bump of the record's address, where the record is the one derived
    /// for the requester.
    pub open spec fn response_bump(self) -> Option<u8> {
        match response_address(self.user.key@, self.config.program@) {
            Some((address, bump)) => if address == self.response.key@ {
                Some(bump)
            } else {
                None
            },
            None => None,
        }
    }

    /// Whether the vault is the one derived for the record.
    pub open spec fn vault_matches(self) -> bool {
        match vault_address(self.response.key@, self.config.program@) {
            Some((address, _)) => address == self.vault.key@,
            None => false,
        }
    }

    /// What the allocation costs the requester: nothing for a record that
    /// exists, the collateral of the baseline size for one that does not.
    /// `None` where the schedule cannot price the baseline.
    pub open spec fn allocation_cost(self, rent: Rent) -> Option<u64> {
        if self.response.owned {
            Some(0)
        } else {
            collateral_of(rent, BASELINE_BYTES)
        }
    }

    /// Why the call is rejected, if it is. The signature is tested first, the
    /// addresses before any payment.
    pub open spec fn rejection(self, rent: Rent) -> Option<ChatError> {
        if !self.user.is_signer {
            Some(ChatError::MissingSignature)
        } else if !self.services_match() || self.response_bump() is None || !self.vault_matches() {
            Some(ChatError::AddressMismatch)
        } else {
            match self.allocation_cost(rent) {
                None => Some(ChatError::InsufficientFunds),
                Some(cost) => if self.user.lamports < cost + PREPAYMENT_LAMPORTS {
                    Some(ChatError::InsufficientFunds)
                } else {
                    None
                },
            }
        }
    }

    /// The plan of an admitted call.
    pub open spec fn plan(self, rent: Rent, text: Seq<char>, seed: u8) -> AdmissionView {
        AdmissionView {
            allocation: if self.response.owned {
                None
            } else {
                Some(
                    Allocation {
                        space: BASELINE_BYTES,
                        lamports: self.allocation_cost(rent).unwrap(),
                        bump: self.response_bump().unwrap(),
                    },
                )
            },
            request: RequestView {
                text,
                seed,
                callback_program: self.config.program,
                callback_discriminator: self.config.callback_discriminator,
                account_metas: callback_accounts(self.response.key, self.vault.key, self.system_program),
            },
            prepayment: PREPAYMENT_LAMPORTS,
        }
    }

    /// The accounts after an admitted call: the requester has paid the
    /// allocation and the prepayment, a record that did not exist is allocated
    /// at the baseline with an empty payload, and the vault holds the
    /// prepayment on top of what it held.
    pub open spec fn after(self, rent: Rent) -> AiInferenceView {
        let cost = self.allocation_cost(rent).unwrap();
        AiInferenceView {
            config: self.config,
            user: Payer {
                key: self.user.key,
                is_signer: self.user.is_signer,
                lamports: (self.user.lamports - cost - PREPAYMENT_LAMPORTS) as u64,
            },
            response: if self.response.owned {
                self.response
            } else {
                self.response.allocated(cost)
            },
            vault: Vault {
                key: self.vault.key,
                lamports: (self.vault.lamports + PREPAYMENT_LAMPORTS) as u64,
            },
            oracle_program: self.oracle_program,
            system_program: self.system_program,
        }
    }

    /// What a call does: the rejection, or the accounts after it and its plan.
    pub open spec fn outcome(self, rent: Rent, text: Seq<char>, seed: u8) -> Result<
        (AiInferenceView, AdmissionView),
        ChatError,
    > {
        match self.rejection(rent) {
            Some(error) => Err(error),
            None => Ok((self.after(rent), self.plan(rent, text, seed))),
        }
    }
}

impl AiInference {
    /// Whether the accounts meet what [`AiInference::ai_inference`] requires.
    pub fn is_wf(&self) -> (ok: bool)
        ensures
            ok == self@.wf(),
    {
        if !self.response.is_wf() {
            return false;
        }
        match self.user.lamports.checked_add(self.response.lamports) {
            Some(sum) => sum.checked_add(self.vault.lamports).is_some(),
            None => false,
        }
    }

    /// Admits a request for an inference on `text`.
    ///
    /// On success the accounts are updated to what they hold once the returned
    /// plan has been carried out. A rejected call changes nothing.
    pub fn ai_inference(&mut self, text: String, seed: u8, rent: &Rent) -> (result: Result<
        Admission,
        ChatError,
    >)
        requires
            old(self)@.wf(),
        ensures
            match result {
                Ok(plan) => old(self)@.outcome(*rent, text@, seed) == Ok::<
                    (AiInferenceView, AdmissionView),
                    ChatError,
                >((final(self)@, plan@)),
                Err(error) => old(self)@.outcome(*rent, text@, seed) == Err::<
                    (AiInferenceView, AdmissionView),
                    ChatError,
                >(error) && *final(self) == *old(self),
            },
            final(self)@.wf(),
    {
        if !self.user.is_signer {
            return Err(ChatError::MissingSignature);
        }
        if !self.oracle_program.matches(&self.config.oracle_program) || !self.system_program.matches(
            &self.config.system_program,
        ) {
            return Err(ChatError::AddressMismatch);
        }
        let response_bump = match derive_response(&self.user.key, &self.config.program) {
            Some((address, bump)) => {
                if !address.matches(&self.response.key) {
                    return Err(ChatError::AddressMismatch);
                }
                bump
            },
            None => {
                return Err(ChatError::AddressMismatch);
            },
        };
        match derive_vault(&self.response.key, &self.config.program) {
            Some((address, _)) => {
                if !address.matches(&self.vault.key) {
                    return Err(ChatError::AddressMismatch);
                }
            },
            None => {
                return Err(ChatError::AddressMismatch);
            },
        }
        let cost: u64 = if self.response.owned {
            0
        } else {
            match required_collateral(rent, BASELINE_BYTES) {
                Some(due) => due,
                None => {
                    return Err(ChatError::InsufficientFunds);
                },
            }
        };
        if self.user.lamports < PREPAYMENT_LAMPORTS || self.user.lamports - PREPAYMENT_LAMPORTS < cost {
            return Err(ChatError::InsufficientFunds);
        }
        let allocation = if self.response.owned {
            None
        } else {
            self.response.owned = true;
            self.response.data_len = BASELINE_BYTES;
            self.response.lamports = self.response.lamports + cost;
            self.response.data = Response::new();
            Some(Allocation { space: BASELINE_BYTES, lamports: cost, bump: response_bump })
        };
        self.user.lamports = self.user.lamports - cost - PREPAYMENT_LAMPORTS;
        self.vault.lamports = self.vault.lamports + PREPAYMENT_LAMPORTS;
        let account_metas = vec![
            AccountMeta { pubkey: self.response.key, is_signer: false, is_writable: true },
            AccountMeta { pubkey: self.vault.key, is_signer: false, is_writable: true },
            AccountMeta { pubkey: self.system_program, is_signer: false, is_writable: false },
        ];
        let request = InferenceRequest {
            text,
            seed,
            callback_program: self.config.program,
            callback_discriminator: self.config.callback_discriminator,
            account_metas,
        };
        Ok(Admission { allocation, request, prepayment: PREPAYMENT_LAMPORTS })
    }
}

} // verus!
