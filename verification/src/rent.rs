//! The storage collateral that the host platform asks of a record, and the
//! top-up that a change of size calls for.

use anchor_lang::prelude::Rent;
use vstd::prelude::*;

verus! {

/// The platform's rent schedule. The protocol carries it through and reads it
/// only by the two calls below.
#[verifier::external_type_specification]
#[verifier::external_body]
pub struct ExRent(Rent);

/// The bytes that the platform counts for every account on top of its data.
pub const ACCOUNT_STORAGE_OVERHEAD: u64 = 128;

/// The yearly rate per byte that a schedule charges, in the smallest unit of
/// the currency.
pub uninterp spec fn rent_rate(rent: Rent) -> u64;

/// The balance that a schedule asks of an account with `data_len` bytes of
/// data to keep it allocated.
pub uninterp spec fn rent_minimum_balance(rent: Rent, data_len: usize) -> u64;

/// Reads the field `lamports_per_byte_year` of the schedule.
#[verifier::external_body]
fn lamports_per_byte_year(rent: &Rent) -> (rate: u64)
    ensures
        rate == rent_rate(*rent),
{
    rent.lamports_per_byte_year
}

/// Calls `Rent::minimum_balance`. The platform adds the overhead to the
/// account's size and multiplies the sum by the yearly rate, both in 64 bits,
/// before it scales the product, so the call is made only where sum and
/// product fit. The contract gives the result a name and claims nothing else
/// of it.
#[verifier::external_body]
fn minimum_balance(rent: &Rent, data_len: usize) -> (due: u64)
    requires
        ACCOUNT_STORAGE_OVERHEAD + data_len <= u64::MAX,
        (ACCOUNT_STORAGE_OVERHEAD + data_len) * rent_rate(*rent) <= u64::MAX,
    ensures
        due == rent_minimum_balance(*rent, data_len),
{
    rent.minimum_balance(data_len)
}

/// Whether the schedule can price `data_len` bytes within the currency's range.
pub open spec fn priced(rent: Rent, data_len: usize) -> bool {
    &&& ACCOUNT_STORAGE_OVERHEAD + data_len <= u64::MAX
    &&& (ACCOUNT_STORAGE_OVERHEAD + data_len) * rent_rate(rent) <= u64::MAX
}

/// The collateral for `data_len` bytes, where the schedule can price them.
pub open spec fn collateral_of(rent: Rent, data_len: usize) -> Option<u64> {
    if priced(rent, data_len) {
        Some(rent_minimum_balance(rent, data_len))
    } else {
        None
    }
}

/// What has to be added to the collateral of a record that goes from
/// `current` to `required` bytes: the difference of the two collaterals, and
/// nothing where the new one is not the larger. `None` where the schedule
/// cannot price one of the two sizes.
pub open spec fn shortfall_of(rent: Rent, current: usize, required: usize) -> Option<u64> {
    match (collateral_of(rent, required), collateral_of(rent, current)) {
        (Some(after), Some(before)) => Some(
            if after > before {
                (after - before) as u64
            } else {
                0
            },
        ),
        _ => None,
    }
}

/// The collateral that keeps `data_len` bytes allocated, or `None` where the
/// schedule cannot price that size.
pub fn required_collateral(rent: &Rent, data_len: usize) -> (due: Option<u64>)
    ensures
        due == collateral_of(*rent, data_len),
{
    if data_len as u64 > u64::MAX - ACCOUNT_STORAGE_OVERHEAD {
        return None;
    }
    let bytes: u64 = ACCOUNT_STORAGE_OVERHEAD + data_len as u64;
    let rate: u64 = lamports_per_byte_year(rent);
    match bytes.checked_mul(rate) {
        Some(_) => Some(minimum_balance(rent, data_len)),
        None => None,
    }
}

/// The top-up for a record that goes from `current` to `required` bytes.
pub fn shortfall(rent: &Rent, current: usize, required: usize) -> (due: Option<u64>)
    ensures
        due == shortfall_of(*rent, current, required),
{
    match required_collateral(rent, required) {
        Some(after) => match required_collateral(rent, current) {
            Some(before) => Some(after.saturating_sub(before)),
            None => None,
        },
        None => None,
    }
}

} // verus!
