//! The response record: the stored slot that holds the provider's result.

use crate::address::Address;
use crate::rent::collateral_of;
use anchor_lang::prelude::Rent;
use vstd::prelude::*;
use vstd::utf8::encode_utf8;

verus! {

/// Bytes taken by the type tag at the head of a stored record.
pub const DISCRIMINATOR_BYTES: usize = 8;

/// Bytes taken by the length that precedes the payload.
pub const LENGTH_PREFIX_BYTES: usize = 4;

/// Bytes kept free behind the payload.
pub const SLACK_BYTES: usize = 1;

/// The bytes that a payload and what precedes it fill: tag, length, payload.
pub open spec fn occupied_bytes(payload_len: nat) -> nat {
    DISCRIMINATOR_BYTES as nat + LENGTH_PREFIX_BYTES as nat + payload_len
}

/// The bytes a record is given to hold a payload of `payload_len` bytes:
/// what the payload fills, and the slack behind it.
pub open spec fn required_bytes(payload_len: nat) -> nat {
    occupied_bytes(payload_len) + SLACK_BYTES as nat
}

/// The number of bytes in the stored form of a text.
pub open spec fn byte_len(text: Seq<char>) -> nat {
    encode_utf8(text).len()
}

/// Whether `text` can be stored: the length prefix can express its length,
/// and the machine the size of its record.
pub open spec fn fits(text: Seq<char>) -> bool {
    &&& byte_len(text) <= u32::MAX
    &&& required_bytes(byte_len(text)) <= usize::MAX
}

/// The size of a record that holds no payload yet.
pub const BASELINE_BYTES: usize = DISCRIMINATOR_BYTES + LENGTH_PREFIX_BYTES + SLACK_BYTES;

/// The contents of a response record: the result text, empty while the
/// request is pending.
#[derive(Debug, Clone, PartialEq, Eq)]
pub struct Response {
    pub response: String,
}

impl View for Response {
    type V = Seq<char>;

    open spec fn view(&self) -> Seq<char> {
        self.response@
    }
}

impl Response {
    /// The contents of a record whose request is pending.
    pub fn new() -> (empty: Response)
        ensures
            empty@ == Seq::<char>::empty(),
    {
        Response { response: String::new() }
    }

    /// Whether `text` can be stored.
    pub fn fits(text: &str) -> (ok: bool)
        ensures
            ok == fits(text@),
    {
        let len = text.as_bytes().len();
        len <= u32::MAX as usize && len <= usize::MAX - DISCRIMINATOR_BYTES - LENGTH_PREFIX_BYTES
            - SLACK_BYTES
    }

    /// The bytes that a record needs to hold `text`: its tag, its length
    /// prefix, the bytes of `text` and the slack.
    pub fn space(text: &str) -> (bytes: usize)
        requires
            fits(text@),
        ensures
            bytes == required_bytes(byte_len(text@)),
    {
        DISCRIMINATOR_BYTES + LENGTH_PREFIX_BYTES + text.as_bytes().len() + SLACK_BYTES
    }
}

/// A response record as the host platform holds it.
#[derive(Debug, Clone, PartialEq, Eq)]
pub struct ResponseAccount {
    /// Where the record lives.
    pub key: Address,
    /// Whether the storage has been allocated to this contract. A record that
    /// is not owned is still the platform's unallocated account.
    pub owned: bool,
    /// The allocated length in bytes.
    pub data_len: usize,
    /// The balance that the record holds as its collateral.
    pub lamports: u64,
    /// The stored contents.
    pub data: Response,
}

/// The mathematical value of a response record.
pub struct RecordView {
    pub key: Address,
    pub owned: bool,
    pub data_len: usize,
    pub lamports: u64,
    pub payload: Seq<char>,
}

impl View for ResponseAccount {
    type V = RecordView;

    open spec fn view(&self) -> RecordView {
        RecordView {
            key: self.key,
            owned: self.owned,
            data_len: self.data_len,
            lamports: self.lamports,
            payload: self.data@,
        }
    }
}

impl RecordView {
    /// The record's invariant: an allocated record holds a payload that can
    /// be stored, and is long enough for its tag, its length prefix and that
    /// payload.
    pub open spec fn wf(self) -> bool {
        self.owned ==> fits(self.payload) && occupied_bytes(byte_len(self.payload)) <= self.data_len
    }

    /// Whether the record's own balance covers the collateral of its
    /// allocated length under `rent`.
    pub open spec fn collateralized(self, rent: Rent) -> bool {
        match collateral_of(rent, self.data_len) {
            Some(due) => due <= self.lamports,
            None => false,
        }
    }

    /// The record after its first allocation, paid with `paid`.
    pub open spec fn allocated(self, paid: u64) -> RecordView {
        RecordView {
            key: self.key,
            owned: true,
            data_len: BASELINE_BYTES,
            lamports: (self.lamports + paid) as u64,
            payload: Seq::empty(),
        }
    }

    /// The record after `text` was committed into it with a top-up of `paid`.
    pub open spec fn committed(self, text: Seq<char>, paid: u64) -> RecordView {
        RecordView {
            key: self.key,
            owned: self.owned,
            data_len: required_bytes(byte_len(text)) as usize,
            lamports: (self.lamports + paid) as u64,
            payload: text,
        }
    }
}

impl ResponseAccount {
    /// The platform's account at `key` before anything was allocated there,
    /// holding `lamports`.
    pub fn unallocated(key: Address, lamports: u64) -> (record: ResponseAccount)
        ensures
            record@ == (RecordView {
                key,
                owned: false,
                data_len: 0,
                lamports,
                payload: Seq::empty(),
            }),
            record@.wf(),
    {
        ResponseAccount { key, owned: false, data_len: 0, lamports, data: Response::new() }
    }

    /// Whether the record keeps its invariant.
    pub fn is_wf(&self) -> (ok: bool)
        ensures
            ok == self@.wf(),
    {
        if !self.owned {
            return true;
        }
        let payload_len = self.data.response.as_str().as_bytes().len();
        Response::fits(self.data.response.as_str()) && self.data_len >= DISCRIMINATOR_BYTES
            + LENGTH_PREFIX_BYTES && payload_len <= self.data_len - DISCRIMINATOR_BYTES
            - LENGTH_PREFIX_BYTES
    }
}

/// The size of an empty record is the baseline.
pub proof fn lemma_baseline_is_empty_record()
    ensures
        required_bytes(byte_len(Seq::<char>::empty())) == BASELINE_BYTES,
        fits(Seq::<char>::empty()),
{
    reveal_with_fuel(encode_utf8, 1);
}

} // verus!
