//! Hashing and signing of encoded transactions.
//!
//! A transaction is encoded without a signature and hashed; the hash is
//! signed; the transaction is encoded again with the signature and hashed
//! again. In the legacy format the chain id is folded into `v`; in the typed
//! formats, which carry the chain id among their items, `v` is the bare
//! recovery id.

use vstd::prelude::*;
use crate::error::{HsmError, Malformed, Number};
use crate::primitives::{be_value, fits_in_bytes, lemma_be_bytes_len, lemma_be_value_fits};
use crate::rlp::{rlp_uint, MAX_PAYLOAD};
use crate::transaction::{
    body_fields, encodable, encode, encoding, format_of, select_format, trailing_fields, Intent,
    Signature, TransactionParam, TxFormat,
};

verus! {

/// The Keccak-256 digest of a byte string.
pub uninterp spec fn keccak(data: Seq<u8>) -> Seq<u8>;

/// The recoverable ECDSA signature over secp256k1 that a 32-byte private key
/// gives a message, with the bare recovery id as `v`; `None` where the key
/// is no valid scalar or the message no 32-byte digest.
pub uninterp spec fn ecdsa_signature(key: Seq<u8>, message: Seq<u8>) -> Option<Signature>;

/// `web3::signing::keccak256`: the Keccak-256 digest of the bytes.
#[verifier::external_body]
pub(crate) fn keccak256(data: &[u8]) -> (out: [u8; 32])
    ensures
        out@ == keccak(data@),
{
    web3::signing::keccak256(data)
}

/// `SecretKey::from_slice` of secp256k1 and `Key::sign_message` of
/// `web3::signing`. The signature is deterministic in key and message. The
/// key is refused unless it is a valid scalar, the message unless it has 32
/// bytes; `v` is the recovery id as the curve library gives it, from 0 to 3.
#[verifier::external_body]
pub(crate) fn sign_recoverable(key: &[u8; 32], message: &[u8]) -> (out: Option<Signature>)
    ensures
        out == ecdsa_signature(key@, message@),
        out matches Some(signature) ==> signature.v <= 3 && message@.len() == 32,
{
    let secret = web3::signing::SecretKey::from_slice(key).ok()?;
    let signed = web3::signing::Key::sign_message(&&secret, message).ok()?;
    Some(Signature { v: signed.v, r: signed.r.0, s: signed.s.0 })
}

/// The most bytes that the trailing items of a list can take: a `u64` and two
/// 32-byte integers, each behind a one-byte header.
pub const MAX_TRAILING: usize = 75;

/// A signed transaction with the two hashes that belong to it.
#[derive(Clone, Debug)]
pub struct SignedTransaction {
    /// The hash of the unsigned encoding: what was signed.
    pub message_hash: [u8; 32],
    pub v: u64,
    pub r: [u8; 32],
    pub s: [u8; 32],
    /// The signed encoding.
    pub raw_transaction: Vec<u8>,
    /// The hash of the signed encoding.
    pub transaction_hash: [u8; 32],
}

/// `v` of a legacy signature: the recovery id, plus 35, plus twice the chain id.
pub open spec fn legacy_v(recovery_id: nat, chain_id: nat) -> nat {
    recovery_id + 35 + 2 * chain_id
}

/// A signature with the `v` that the format asks for. The legacy format
/// folds the chain id into `v`, and refuses a chain id so large that `v`
/// would not fit in 64 bits. The typed formats keep the bare recovery id.
pub open spec fn chain_protected(format: TxFormat, chain_id: u64, bare: Signature) -> Result<
    Signature,
    HsmError,
> {
    match format {
        TxFormat::Legacy => if legacy_v(bare.v as nat, chain_id as nat) <= u64::MAX {
            Ok(
                (Signature {
                    v: legacy_v(bare.v as nat, chain_id as nat) as u64,
                    r: bare.r,
                    s: bare.s,
                }),
            )
        } else {
            Err(HsmError::NumericParse(Number::ChainId))
        },
        _ => Ok(bare),
    }
}

/// The hash that is signed: the digest of the unsigned encoding.
pub open spec fn signing_hash(tx: Intent, format: TxFormat, chain_id: u64) -> Seq<u8> {
    keccak(encoding(tx, format, chain_id, None))
}

/// The signature that a key gives a transaction, or the reason why there is
/// none: first an unknown format tag, then an unsigned encoding that is too
/// long, then a key that cannot sign, then a chain id that cannot be folded,
/// then a signed encoding that is too long.
pub open spec fn signature_for(tx: Intent, chain_id: u64, key: Seq<u8>) -> Result<
    Signature,
    HsmError,
> {
    match format_of(tx.transaction_type) {
        None => Err(HsmError::UnsupportedFormat),
        Some(format) => if !encodable(tx, format, chain_id, None) {
            Err(HsmError::Oversize)
        } else {
            match ecdsa_signature(key, signing_hash(tx, format, chain_id)) {
                None => Err(HsmError::Decode(Malformed::SigningKey)),
                Some(bare) => match chain_protected(format, chain_id, bare) {
                    Err(e) => Err(e),
                    Ok(signature) => if encodable(tx, format, chain_id, Some(signature)) {
                        Ok(signature)
                    } else {
                        Err(HsmError::Oversize)
                    },
                },
            }
        },
    }
}

/// Whether a transaction leaves room for any signature under the limit of
/// the list header, whatever its format.
pub open spec fn signable(tx: Intent, chain_id: u64) -> bool {
    forall|format: TxFormat| #[trigger]
        body_fields(tx, format, chain_id).len() + MAX_TRAILING <= MAX_PAYLOAD
}

/// An integer that fits in `width` bytes takes at most one byte more as an item.
pub proof fn lemma_uint_len(n: nat, width: nat)
    requires
        fits_in_bytes(n, width),
        width <= 55,
    ensures
        rlp_uint(n).len() <= width + 1,
{
    lemma_be_bytes_len(n, width);
}

/// The trailing items never take more than `MAX_TRAILING` bytes.
pub proof fn lemma_trailing_len(format: TxFormat, chain_id: u64, signature: Option<Signature>)
    ensures
        trailing_fields(format, chain_id, signature).len() <= MAX_TRAILING,
{
    assert(forall|x: u64| fits_in_bytes(x as nat, 8)) by {
        reveal_with_fuel(fits_in_bytes, 9);
    }
    lemma_uint_len(chain_id as nat, 8);
    lemma_uint_len(0, 8);
    match signature {
        Some(s) => {
            lemma_uint_len(s.v as nat, 8);
            lemma_be_value_fits(s.r@);
            lemma_be_value_fits(s.s@);
            lemma_uint_len(be_value(s.r@), 32);
            lemma_uint_len(be_value(s.s@), 32);
        },
        None => {},
    }
}

/// A signable transaction can be encoded in every format, with any
/// signature and with none, so signing never refuses it for its size.
pub proof fn lemma_signable_encodable(
    tx: Intent,
    format: TxFormat,
    chain_id: u64,
    signature: Option<Signature>,
)
    requires
        signable(tx, chain_id),
    ensures
        encodable(tx, format, chain_id, signature),
{
    lemma_trailing_len(format, chain_id, signature);
    assert(body_fields(tx, format, chain_id).len() + MAX_TRAILING <= MAX_PAYLOAD);
}

/// Gives a bare signature the `v` that the format asks for: in the legacy
/// format the recovery id plus 35 plus twice the chain id, in the typed
/// formats the recovery id itself, whatever the chain id.
pub fn protect_replay(format: TxFormat, chain_id: u64, bare: Signature) -> (out: Result<
    Signature,
    HsmError,
>)
    ensures
        out == chain_protected(format, chain_id, bare),
        format != TxFormat::Legacy ==> out == Ok::<Signature, HsmError>(bare),
        format == TxFormat::Legacy ==> (out matches Ok(s) ==> s.v == bare.v + 35 + 2 * chain_id),
{
    match format {
        TxFormat::Legacy => {
            let doubled = match chain_id.checked_mul(2) {
                Some(d) => d,
                None => {
                    return Err(HsmError::NumericParse(Number::ChainId));
                },
            };
            let shifted = match doubled.checked_add(35) {
                Some(s) => s,
                None => {
                    return Err(HsmError::NumericParse(Number::ChainId));
                },
            };
            match shifted.checked_add(bare.v) {
                Some(v) => Ok(Signature { v, r: bare.r, s: bare.s }),
                None => Err(HsmError::NumericParse(Number::ChainId)),
            }
        },
        _ => Ok(bare),
    }
}

/// How `v` depends on the format. In the legacy format it is the recovery
/// id plus 35 plus twice the chain id, and there is a signature exactly
/// where that fits in 64 bits. In the typed formats it is the recovery id
/// itself, whatever the chain id: 0 or 1 where the recovery id is.
pub proof fn lemma_v_by_format(format: TxFormat, chain_id: u64, bare: Signature)
    ensures
        format == TxFormat::Legacy ==> (chain_protected(format, chain_id, bare) matches Ok(s)
            ==> s.v == bare.v + 35 + 2 * chain_id && s.r == bare.r && s.s == bare.s),
        format == TxFormat::Legacy ==> (chain_protected(format, chain_id, bare) is Ok <==> bare.v
            + 35 + 2 * chain_id <= u64::MAX),
        format != TxFormat::Legacy ==> chain_protected(format, chain_id, bare) == Ok::<
            Signature,
            HsmError,
        >(bare),
        format != TxFormat::Legacy && bare.v <= 1 ==> (chain_protected(format, chain_id, bare)
            matches Ok(s) && (s.v == 0 || s.v == 1)),
{
}

/// Signs a transaction: encodes it unsigned and hashes it, signs the hash,
/// encodes it again with the signature and hashes that.
pub fn sign_raw(tx: &TransactionParam, key: &[u8; 32], chain_id: u64) -> (out: Result<
    SignedTransaction,
    HsmError,
>)
    ensures
        match signature_for(tx@, chain_id, key@) {
            Ok(signature) => {
                &&& out matches Ok(signed)
                &&& format_of(tx.transaction_type) matches Some(format)
                &&& signed.message_hash@ == signing_hash(tx@, format, chain_id)
                &&& signed.v == signature.v
                &&& signed.r == signature.r
                &&& signed.s == signature.s
                &&& signed.raw_transaction@ == encoding(tx@, format, chain_id, Some(signature))
                &&& signed.transaction_hash@ == keccak(signed.raw_transaction@)
            },
            Err(e) => out matches Err(x) && x == e,
        },
{
    let format = match select_format(tx.transaction_type) {
        Some(f) => f,
        None => {
            return Err(HsmError::UnsupportedFormat);
        },
    };
    let encoded = match encode(tx, chain_id, None) {
        Ok(bytes) => bytes,
        Err(e) => {
            return Err(e);
        },
    };
    let hash = keccak256(encoded.as_slice());
    let bare = match sign_recoverable(key, hash.as_slice()) {
        Some(s) => s,
        None => {
            return Err(HsmError::Decode(Malformed::SigningKey));
        },
    };
    let signature = match protect_replay(format, chain_id, bare) {
        Ok(s) => s,
        Err(e) => {
            return Err(e);
        },
    };
    let signed = match encode(tx, chain_id, Some(signature)) {
        Ok(bytes) => bytes,
        Err(e) => {
            return Err(e);
        },
    };
    let transaction_hash = keccak256(signed.as_slice());
    Ok(
        SignedTransaction {
            message_hash: hash,
            v: signature.v,
            r: signature.r,
            s: signature.s,
            raw_transaction: signed,
            transaction_hash,
        },
    )
}

/// The 65-byte compact form of a signature: `r`, then `s`, then the low byte of `v`.
pub open spec fn compact_form(v: u64, r: [u8; 32], s: [u8; 32]) -> Seq<u8> {
    r@ + s@ + seq![(v % 256) as u8]
}

/// Packs a signature into its 65-byte compact form.
pub fn combined_sign_bytes(v: u64, r: [u8; 32], s: [u8; 32]) -> (out: [u8; 65])
    ensures
        out@ == compact_form(v, r, s),
{
    let mut combined = [0u8; 65];
    let mut i: usize = 0;
    while i < 32
        invariant
            i <= 32,
            forall|j: int| 0 <= j < i ==> combined@[j] == r@[j],
            forall|j: int| 0 <= j < i ==> combined@[32 + j] == s@[j],
        decreases 32 - i,
    {
        combined[i] = r[i];
        combined[32 + i] = s[i];
        i += 1;
    }
    combined[64] = (v % 256) as u8;
    assert(combined@ =~= compact_form(v, r, s));
    combined
}

/// Signs a 32-byte digest and packs the signature, with the bare recovery
/// id as its last byte, into the compact form.
pub fn sign_message(message: &[u8], key: &[u8; 32]) -> (out: Result<[u8; 65], HsmError>)
    ensures
        match out {
            Ok(packed) => {
                &&& message@.len() == 32
                &&& ecdsa_signature(key@, message@) matches Some(signature)
                &&& packed@ == compact_form(signature.v, signature.r, signature.s)
            },
            Err(e) => if message@.len() != 32 {
                e == HsmError::Decode(Malformed::Digest)
            } else {
                e == HsmError::Decode(Malformed::SigningKey) && ecdsa_signature(key@, message@)
                    is None
            },
        },
{
    if message.len() != 32 {
        return Err(HsmError::Decode(Malformed::Digest));
    }
    match sign_recoverable(key, message) {
        Some(signature) => Ok(combined_sign_bytes(signature.v, signature.r, signature.s)),
        None => Err(HsmError::Decode(Malformed::SigningKey)),
    }
}

} // verus!
