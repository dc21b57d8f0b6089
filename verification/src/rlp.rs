//! Recursive-length-prefix framing of byte strings, integers and lists.
//!
//! The framing itself is done by the `rlp` crate; this module states what
//! each call returns and offers the calls to the rest of the crate.

use vstd::prelude::*;
use crate::primitives::{be_bytes, U256};

verus! {

/// The largest payload whose length the `rlp` crate can write into a header.
pub const MAX_PAYLOAD: usize = 0xffff_ffff;

/// The header in front of a payload of `len` bytes: one byte for up to 55
/// bytes, else a byte that counts the bytes of the length, then the length.
/// `base` is 0x80 for a byte string and 0xc0 for a list.
pub open spec fn rlp_header(base: nat, len: nat) -> Seq<u8> {
    if len <= 55 {
        seq![(base + len) as u8]
    } else {
        seq![(base + 55 + be_bytes(len).len()) as u8] + be_bytes(len)
    }
}

/// The encoding of a byte string: a single byte below 0x80 stands for
/// itself, anything else follows its header.
pub open spec fn rlp_string(data: Seq<u8>) -> Seq<u8> {
    if data.len() == 1 && data[0] < 0x80 {
        data
    } else {
        rlp_header(0x80, data.len()) + data
    }
}

/// The encoding of an unsigned integer: its shortest big-endian form as a byte string.
pub open spec fn rlp_uint(n: nat) -> Seq<u8> {
    rlp_string(be_bytes(n))
}

/// The encoding of a list whose encoded items, one after the other, are `payload`.
pub open spec fn rlp_list(payload: Seq<u8>) -> Seq<u8> {
    rlp_header(0xc0, payload.len()) + payload
}

/// `rlp::encode` on a byte slice. The crate writes a single byte below 0x80
/// as it is and every other string behind a header; it keeps a length in
/// four bytes, so longer strings are left out.
#[verifier::external_body]
pub(crate) fn encode_bytes(data: &[u8]) -> (out: Vec<u8>)
    requires
        data@.len() <= MAX_PAYLOAD,
    ensures
        out@ == rlp_string(data@),
{
    rlp::encode(&data).to_vec()
}

/// `rlp::encode` on a `u64`. The crate drops the leading zero bytes of the
/// big-endian form and encodes the rest as a byte string.
#[verifier::external_body]
pub(crate) fn encode_u64(value: u64) -> (out: Vec<u8>)
    ensures
        out@ == rlp_uint(value as nat),
{
    rlp::encode(&value).to_vec()
}

/// `rlp::encode` on a 256-bit integer of `web3::types`. As for `u64`, the
/// leading zero bytes are dropped and the rest is encoded as a byte string.
#[verifier::external_body]
pub(crate) fn encode_u256(value: &U256) -> (out: Vec<u8>)
    ensures
        out@ == rlp_uint(value@),
{
    rlp::encode(&web3::types::U256::from_big_endian(&value.bytes)).to_vec()
}

/// `RlpStream::new_list`, `append_raw` and `out` of the `rlp` crate, used
/// together to put a list header in front of items that are already encoded.
/// `items` is the number of items in `payload`; the stream closes the list
/// when it has received that many. A list opened for no items is closed at
/// once, so it must come with an empty payload.
#[verifier::external_body]
pub(crate) fn encode_list(payload: &[u8], items: usize) -> (out: Vec<u8>)
    requires
        payload@.len() <= MAX_PAYLOAD,
        items == 0 ==> payload@.len() == 0,
    ensures
        out@ == rlp_list(payload@),
{
    let mut stream = rlp::RlpStream::new_list(items);
    stream.append_raw(payload, items);
    stream.out().to_vec()
}

} // verus!
