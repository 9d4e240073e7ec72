//! The stored form of a response record: its tag, the length of the payload
//! in four little-endian bytes, and the payload's bytes. What lies behind them
//! is slack and is never read.

use crate::response::{byte_len, fits, occupied_bytes, Response, DISCRIMINATOR_BYTES, LENGTH_PREFIX_BYTES};
use vstd::bytes::{
    lemma_auto_spec_u32_to_from_le_bytes, spec_u32_from_le_bytes, spec_u32_to_le_bytes,
    u32_from_le_bytes, u32_to_le_bytes,
};
use vstd::prelude::*;
use vstd::slice::{slice_subrange, slice_to_vec};
use vstd::utf8::{decode_utf8, encode_utf8, encode_utf8_decode_utf8, encode_utf8_valid_utf8, valid_utf8};

verus! {

/// The bytes that store `text` under the tag `tag`.
pub open spec fn stored(tag: Seq<u8>, text: Seq<char>) -> Seq<u8> {
    tag + spec_u32_to_le_bytes(byte_len(text) as u32) + encode_utf8(text)
}

/// The text that the bytes of a record store under the tag `tag`; `None`
/// where they are too short for tag and prefix, carry another tag, announce
/// more payload than they hold, or hold a payload that is no text.
pub open spec fn parsed(tag: Seq<u8>, data: Seq<u8>) -> Option<Seq<char>> {
    let head = DISCRIMINATOR_BYTES + LENGTH_PREFIX_BYTES;
    if data.len() < head || data.subrange(0, DISCRIMINATOR_BYTES as int) != tag {
        None
    } else {
        let len = spec_u32_from_le_bytes(data.subrange(DISCRIMINATOR_BYTES as int, head as int));
        if head + len > data.len() {
            None
        } else {
            let payload = data.subrange(head as int, head + len);
            if valid_utf8(payload) {
                Some(decode_utf8(payload))
            } else {
                None
            }
        }
    }
}

/// Calls `String::from_utf8`, which gives the text that the bytes encode
/// where they are valid UTF-8, and an error where they are not.
#[verifier::external_body]
fn text_from_utf8(bytes: Vec<u8>) -> (text: Option<String>)
    ensures
        match text {
            Some(text) => valid_utf8(bytes@) && text@ == decode_utf8(bytes@),
            None => !valid_utf8(bytes@),
        },
{
    String::from_utf8(bytes).ok()
}

impl Response {
    /// The bytes that store these contents under the tag `discriminator`.
    /// They go to the head of the record; the bytes behind them stay as they
    /// are.
    pub fn to_bytes(&self, discriminator: &[u8; 8]) -> (bytes: Vec<u8>)
        requires
            fits(self@),
        ensures
            bytes@ == stored(discriminator@, self@),
            bytes@.len() == occupied_bytes(byte_len(self@)),
    {
        let payload = self.response.as_str().as_bytes();
        let mut bytes = slice_to_vec(discriminator.as_slice());
        let mut prefix = u32_to_le_bytes(payload.len() as u32);
        let mut body = slice_to_vec(payload);
        bytes.append(&mut prefix);
        bytes.append(&mut body);
        bytes
    }

    /// Reads the contents that the bytes of a record store under the tag
    /// `discriminator`.
    pub fn from_bytes(discriminator: &[u8; 8], data: &[u8]) -> (found: Option<Response>)
        ensures
            match found {
                Some(contents) => parsed(discriminator@, data@) == Some(contents@),
                None => parsed(discriminator@, data@) is None,
            },
    {
        let head = DISCRIMINATOR_BYTES + LENGTH_PREFIX_BYTES;
        if data.len() < head {
            return None;
        }
        let mut i: usize = 0;
        while i < DISCRIMINATOR_BYTES
            invariant
                i <= DISCRIMINATOR_BYTES,
                DISCRIMINATOR_BYTES <= data@.len(),
                forall|j: int| 0 <= j < i ==> data@[j] == discriminator@[j],
            decreases DISCRIMINATOR_BYTES - i,
        {
            if data[i] != discriminator[i] {
                assert(data@.subrange(0, DISCRIMINATOR_BYTES as int)[i as int] != discriminator@[i as int]);
                return None;
            }
            i += 1;
        }
        assert(data@.subrange(0, DISCRIMINATOR_BYTES as int) =~= discriminator@);
        let len = u32_from_le_bytes(slice_subrange(data, DISCRIMINATOR_BYTES, head)) as usize;
        if len > data.len() - head {
            return None;
        }
        let payload = slice_to_vec(slice_subrange(data, head, head + len));
        match text_from_utf8(payload) {
            Some(text) => Some(Response { response: text }),
            None => None,
        }
    }
}

/// What was stored is read back: the bytes that store a text, followed by
/// any slack, parse to that text. The length is written once, and the stored
/// form is as long as the sizing counts it.
pub proof fn lemma_stored_text_reads_back(tag: Seq<u8>, text: Seq<char>, slack: Seq<u8>)
    requires
        tag.len() == DISCRIMINATOR_BYTES,
        fits(text),
    ensures
        stored(tag, text).len() == occupied_bytes(byte_len(text)),
        parsed(tag, stored(tag, text) + slack) == Some(text),
{
    let head = DISCRIMINATOR_BYTES + LENGTH_PREFIX_BYTES;
    let prefix = spec_u32_to_le_bytes(byte_len(text) as u32);
    let data = stored(tag, text) + slack;
    lemma_auto_spec_u32_to_from_le_bytes();
    encode_utf8_valid_utf8(text);
    encode_utf8_decode_utf8(text);
    assert(prefix.len() == 4);
    assert(data.subrange(0, DISCRIMINATOR_BYTES as int) =~= tag);
    assert(data.subrange(DISCRIMINATOR_BYTES as int, head as int) =~= prefix);
    assert(data.subrange(head as int, head + byte_len(text)) =~= encode_utf8(text));
}

} // verus!
