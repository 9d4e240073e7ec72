//! Account addresses and the addresses the protocol derives from them.

use anchor_lang::prelude::Pubkey;
use vstd::prelude::*;

verus! {

/// The number of bytes in an address.
pub const ADDRESS_BYTES: usize = 32;

/// The address of an account on the host platform.
#[derive(Debug, Clone, Copy, PartialEq, Eq)]
pub struct Address {
    pub bytes: [u8; 32],
}

impl View for Address {
    type V = Seq<u8>;

    open spec fn view(&self) -> Seq<u8> {
        self.bytes@
    }
}

impl Address {
    /// The address made of the given bytes.
    pub fn new(bytes: [u8; 32]) -> (address: Address)
        ensures
            address@ == bytes@,
    {
        Address { bytes }
    }

    /// Whether two addresses hold the same bytes.
    pub fn matches(&self, other: &Address) -> (same: bool)
        ensures
            same == (self@ == other@),
            same == (*self == *other),
    {
        let mut i: usize = 0;
        while i < ADDRESS_BYTES
            invariant
                i <= ADDRESS_BYTES,
                forall|j: int| 0 <= j < i ==> self.bytes[j] == other.bytes[j],
            decreases ADDRESS_BYTES - i,
        {
            if self.bytes[i] != other.bytes[i] {
                return false;
            }
            i += 1;
        }
        assert(self@ =~= other@);
        assert(self.bytes == other.bytes) by {
            vstd::array::axiom_array_ext_equal(self.bytes, other.bytes);
        }
        true
    }
}

/// The seed that marks the address of a response record.
pub const RESPONSE_SEED: [u8; 8] = [114, 101, 115, 112, 111, 110, 115, 101];

/// The seed that marks the address of an escrow vault.
pub const VAULT_SEED: [u8; 5] = [118, 97, 117, 108, 116];

/// The address that the host platform derives for `program` from `seeds`,
/// with the bump seed that completes the derivation; `None` where the platform
/// derives none.
pub uninterp spec fn program_address(seeds: Seq<Seq<u8>>, program: Seq<u8>) -> Option<(Seq<u8>, u8)>;

/// Calls `Pubkey::try_find_program_address` with the two seeds `tag` and
/// `key`. The contract gives the platform's answer a name and claims nothing
/// else of it: the same seeds and program always give the same answer.
#[verifier::external_body]
fn find_program_address(tag: &[u8], key: &Address, program: &Address) -> (found: Option<(Address, u8)>)
    ensures
        match found {
            Some((address, bump)) => program_address(seq![tag@, key@], program@) == Some((address@, bump)),
            None => program_address(seq![tag@, key@], program@) is None,
        },
{
    let id = Pubkey::new_from_array(program.bytes);
    Pubkey::try_find_program_address(&[tag, &key.bytes], &id).map(|(at, bump)| (Address { bytes: at.to_bytes() }, bump))
}

/// The address and bump of the response record of `user` under `program`.
pub open spec fn response_address(user: Seq<u8>, program: Seq<u8>) -> Option<(Seq<u8>, u8)> {
    program_address(seq![RESPONSE_SEED@, user], program)
}

/// The address and bump of the vault that escrows for the record at `response`.
pub open spec fn vault_address(response: Seq<u8>, program: Seq<u8>) -> Option<(Seq<u8>, u8)> {
    program_address(seq![VAULT_SEED@, response], program)
}

/// Derives the response record of `user` under `program`.
pub fn derive_response(user: &Address, program: &Address) -> (found: Option<(Address, u8)>)
    ensures
        match found {
            Some((address, bump)) => response_address(user@, program@) == Some((address@, bump)),
            None => response_address(user@, program@) is None,
        },
{
    let tag = RESPONSE_SEED;
    find_program_address(tag.as_slice(), user, program)
}

/// Derives the vault of the record at `response` under `program`.
pub fn derive_vault(response: &Address, program: &Address) -> (found: Option<(Address, u8)>)
    ensures
        match found {
            Some((address, bump)) => vault_address(response@, program@) == Some((address@, bump)),
            None => vault_address(response@, program@) is None,
        },
{
    let tag = VAULT_SEED;
    find_program_address(tag.as_slice(), response, program)
}

} // verus!
