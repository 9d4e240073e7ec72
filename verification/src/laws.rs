//! What holds of the protocol across calls.

use crate::ai_inference::AiInferenceView;
use crate::callback::{CallbackView, Commit};
use crate::error::ChatError;
use crate::rent::{collateral_of, priced, rent_minimum_balance, rent_rate, ACCOUNT_STORAGE_OVERHEAD};
use crate::response::{byte_len, fits, lemma_baseline_is_empty_record, required_bytes};
use anchor_lang::prelude::Rent;
use vstd::prelude::*;

verus! {

/// A record is allocated at most once: a request that is admitted leaves the
/// record allocated, and a request that finds the record allocated plans no
/// allocation and leaves the record as it is.
pub proof fn lemma_allocation_is_idempotent(
    first: AiInferenceView,
    first_rent: Rent,
    first_text: Seq<char>,
    first_seed: u8,
    second_rent: Rent,
    second_text: Seq<char>,
    second_seed: u8,
)
    requires
        first.outcome(first_rent, first_text, first_seed) is Ok,
    ensures
        ({
            let second = first.outcome(first_rent, first_text, first_seed).unwrap().0;
            &&& second.response.owned
            &&& first.response.owned ==> first.outcome(first_rent, first_text, first_seed).unwrap().1.allocation
                is None
            &&& second.outcome(second_rent, second_text, second_seed) matches Ok((third, plan)) ==> {
                &&& plan.allocation is None
                &&& third.response == second.response
            }
        }),
{
}

/// A longer payload never needs a smaller record.
pub proof fn lemma_required_bytes_monotonic(shorter: Seq<char>, longer: Seq<char>)
    requires
        byte_len(shorter) <= byte_len(longer),
    ensures
        required_bytes(byte_len(shorter)) <= required_bytes(byte_len(longer)),
{
}

/// Whether a schedule never asks less for more bytes, among the sizes it can
/// price.
pub open spec fn non_decreasing(rent: Rent) -> bool {
    forall|smaller: usize, larger: usize|
        smaller <= larger && priced(rent, larger) ==> #[trigger] rent_minimum_balance(rent, smaller)
            <= #[trigger] rent_minimum_balance(rent, larger)
}

/// Under a schedule that never asks less for more bytes, a longer payload
/// never needs less collateral.
pub proof fn lemma_collateral_monotonic(rent: Rent, shorter: Seq<char>, longer: Seq<char>)
    requires
        non_decreasing(rent),
        byte_len(shorter) <= byte_len(longer),
        fits(longer),
        priced(rent, required_bytes(byte_len(longer)) as usize),
    ensures
        collateral_of(rent, required_bytes(byte_len(shorter)) as usize) is Some,
        collateral_of(rent, required_bytes(byte_len(longer)) as usize) is Some,
        collateral_of(rent, required_bytes(byte_len(shorter)) as usize).unwrap() <= collateral_of(
            rent,
            required_bytes(byte_len(longer)) as usize,
        ).unwrap(),
{
    let small = required_bytes(byte_len(shorter)) as usize;
    let large = required_bytes(byte_len(longer)) as usize;
    assert(small <= large);
    let rate = rent_rate(rent);
    assert((ACCOUNT_STORAGE_OVERHEAD + small) * rate <= (ACCOUNT_STORAGE_OVERHEAD + large) * rate)
        by (nonlinear_arith)
        requires
            small <= large,
            0 <= rate,
    ;
}

/// A callback without the designated authority's signature is rejected as
/// such, whatever else it holds.
pub proof fn lemma_unauthorized_callback_rejected(accounts: CallbackView, rent: Rent, text: Seq<char>)
    requires
        !accounts.identity.is_signer || accounts.identity.key != accounts.config.oracle_identity,
    ensures
        accounts.outcome(rent, text) == Err::<(CallbackView, Commit), ChatError>(
            ChatError::InvalidOracleIdentity,
        ),
{
}

/// A record that covers its collateral before an accepted callback covers it
/// after: the callback never leaves it under-collateralized.
pub proof fn lemma_callback_keeps_collateral(accounts: CallbackView, rent: Rent, text: Seq<char>)
    requires
        accounts.wf(),
        fits(text),
        accounts.response.collateralized(rent),
        accounts.outcome(rent, text) is Ok,
    ensures
        accounts.outcome(rent, text).unwrap().0.response.collateralized(rent),
{
}

/// An admitted request leaves the record covering its collateral: a record
/// that it allocates is paid for in full, and one that exists is not touched.
pub proof fn lemma_admission_keeps_collateral(accounts: AiInferenceView, rent: Rent, text: Seq<char>, seed: u8)
    requires
        accounts.wf(),
        accounts.response.owned ==> accounts.response.collateralized(rent),
        accounts.outcome(rent, text, seed) is Ok,
    ensures
        accounts.outcome(rent, text, seed).unwrap().0.response.collateralized(rent),
{
}

/// What leaves the vault in a callback is what enters the record, it is never
/// more than the collateral of the new size less the collateral of the old
/// one, and it is nothing where that difference is not positive.
pub proof fn lemma_vault_drawdown_bounded(accounts: CallbackView, rent: Rent, text: Seq<char>)
    requires
        accounts.wf(),
        fits(text),
        accounts.outcome(rent, text) is Ok,
    ensures
        ({
            let (after, commit) = accounts.outcome(rent, text).unwrap();
            let needed = rent_minimum_balance(rent, required_bytes(byte_len(text)) as usize);
            let covered = rent_minimum_balance(rent, accounts.response.data_len);
            &&& accounts.vault.lamports - after.vault.lamports == commit.top_up
            &&& after.response.lamports - accounts.response.lamports == commit.top_up
            &&& needed > covered ==> commit.top_up == needed - covered
            &&& needed <= covered ==> commit.top_up == 0
        }),
{
}

/// Both calls keep the accounts well formed: the balances stay in range and
/// the record stays long enough for what it holds.
pub proof fn lemma_calls_keep_accounts_well_formed(
    admission: AiInferenceView,
    callback: CallbackView,
    rent: Rent,
    text: Seq<char>,
    seed: u8,
)
    requires
        admission.wf(),
        callback.wf(),
        fits(text),
    ensures
        admission.outcome(rent, text, seed) matches Ok((after, _)) ==> after.wf(),
        callback.outcome(rent, text) matches Ok((after, _)) ==> after.wf(),
{
    lemma_baseline_is_empty_record();
}

} // verus!
