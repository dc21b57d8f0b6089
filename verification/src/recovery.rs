//! Recovery of the signer's address from a signature.

use vstd::prelude::*;
use crate::error::{HsmError, Malformed};
use crate::primitives::Address;
use crate::signer::keccak;

verus! {

/// What was signed: a message, which is hashed with the prefix for signed
/// messages before recovery, or a hash that is taken as it is.
#[derive(Clone, Debug)]
pub enum RecoveryMessage {
    Data(Vec<u8>),
    Hash([u8; 32]),
}

/// A signature with what it signs. `v` is 27 or 28, or 35 and more where a
/// chain id is folded in.
#[derive(Clone, Debug)]
pub struct Recovery {
    pub message: RecoveryMessage,
    pub v: u64,
    pub r: [u8; 32],
    pub s: [u8; 32],
}

/// The recovery id that `v` stands for: 27 and 28 stand for 0 and 1; from 35
/// on, odd values stand for 0 and even values for 1; anything else for nothing.
pub open spec fn recovery_id(v: u64) -> Option<i32> {
    if v == 27 {
        Some(0i32)
    } else if v == 28 {
        Some(1i32)
    } else if v >= 35 {
        Some(((v - 1) % 2) as i32)
    } else {
        None
    }
}

/// The decimal digits of a number, as ASCII.
pub open spec fn decimal_digits(n: nat) -> Seq<u8>
    decreases n,
{
    if n < 10 {
        seq![(48 + n) as u8]
    } else {
        decimal_digits(n / 10).push((48 + n % 10) as u8)
    }
}

/// The bytes in front of a signed message: 0x19, then "Ethereum Signed Message:" and a line feed.
pub open spec fn signed_message_prefix() -> Seq<u8> {
    seq![
        0x19u8,
        0x45,
        0x74,
        0x68,
        0x65,
        0x72,
        0x65,
        0x75,
        0x6d,
        0x20,
        0x53,
        0x69,
        0x67,
        0x6e,
        0x65,
        0x64,
        0x20,
        0x4d,
        0x65,
        0x73,
        0x73,
        0x61,
        0x67,
        0x65,
        0x3a,
        0x0a,
    ]
}

/// The hash of a signed message: the digest of the prefix, the length of
/// the message in decimal digits, and the message.
pub open spec fn signed_message_hash(message: Seq<u8>) -> Seq<u8> {
    keccak(signed_message_prefix() + decimal_digits(message.len()) + message)
}

/// The address whose key gave a signature over a 32-byte hash, for a
/// recovery id; `None` where the signature yields no key.
pub uninterp spec fn recovered_signer(hash: Seq<u8>, signature: Seq<u8>, recovery_id: int)
    -> Option<Address>;

/// `web3::signing::hash_message`: the Keccak-256 digest of the message
/// behind the prefix for signed messages and its own length in decimal.
#[verifier::external_body]
fn hash_message(message: &[u8]) -> (out: [u8; 32])
    ensures
        out@ == signed_message_hash(message@),
{
    web3::signing::hash_message(message).0
}

/// `web3::signing::recover`: the address of the public key that the
/// signature `r`, `s` with the recovery id yields for the hash. The outcome
/// depends on the three values alone.
#[verifier::external_body]
fn recover_signer(hash: &[u8; 32], signature: &[u8; 64], recovery_id: i32) -> (out: Option<
    Address,
>)
    ensures
        out == recovered_signer(hash@, signature@, recovery_id as int),
{
    match web3::signing::recover(hash, signature, recovery_id) {
        Ok(address) => Some(Address { bytes: address.0 }),
        Err(_) => None,
    }
}

/// The recovery id that `v` stands for.
pub fn standard_v(v: u64) -> (out: Option<i32>)
    ensures
        out == recovery_id(v),
{
    if v == 27 {
        Some(0)
    } else if v == 28 {
        Some(1)
    } else if v >= 35 {
        if (v - 1) % 2 == 0 {
            Some(0)
        } else {
            Some(1)
        }
    } else {
        None
    }
}

/// The hash that a recovery starts from.
pub open spec fn recovery_hash(message: RecoveryMessage) -> Seq<u8> {
    match message {
        RecoveryMessage::Data(data) => signed_message_hash(data@),
        RecoveryMessage::Hash(hash) => hash@,
    }
}

/// The signer that a recovery finds, or the refusal of a signature that
/// names no recovery id or yields no key.
pub open spec fn recovered(recovery: Recovery) -> Result<Address, HsmError> {
    match recovery_id(recovery.v) {
        None => Err(HsmError::Decode(Malformed::Recovery)),
        Some(id) => match recovered_signer(
            recovery_hash(recovery.message),
            recovery.r@ + recovery.s@,
            id as int,
        ) {
            Some(address) => Ok(address),
            None => Err(HsmError::Decode(Malformed::Recovery)),
        },
    }
}

/// Recovers the address of the signer from a signature and what it signs.
pub fn recover(recovery: &Recovery) -> (out: Result<Address, HsmError>)
    ensures
        out == recovered(*recovery),
{
    let hash = match &recovery.message {
        RecoveryMessage::Data(data) => hash_message(data.as_slice()),
        RecoveryMessage::Hash(hash) => *hash,
    };
    let id = match standard_v(recovery.v) {
        Some(id) => id,
        None => {
            return Err(HsmError::Decode(Malformed::Recovery));
        },
    };
    let mut signature = [0u8; 64];
    let mut i: usize = 0;
    while i < 32
        invariant
            i <= 32,
            forall|j: int| 0 <= j < i ==> signature@[j] == recovery.r@[j],
            forall|j: int| 0 <= j < i ==> signature@[32 + j] == recovery.s@[j],
        decreases 32 - i,
    {
        signature[i] = recovery.r[i];
        signature[32 + i] = recovery.s[i];
        i += 1;
    }
    assert(signature@ =~= recovery.r@ + recovery.s@);
    match recover_signer(&hash, &signature, id) {
        Some(address) => Ok(address),
        None => Err(HsmError::Decode(Malformed::Recovery)),
    }
}

} // verus!
