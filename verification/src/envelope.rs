//! Proof of origin: the signature over an envelope is checked against the
//! verifying key that came with it. Whatever cannot be parsed does not verify.

use vstd::prelude::*;

verus! {

/// An envelope: an encrypted message, a signature over it and the key to check it with.
#[derive(Clone, Debug)]
pub struct SignTx {
    pub message: Vec<u8>,
    pub signature: Vec<u8>,
    pub v_key: Vec<u8>,
}

/// How a check of a signature ended.
#[derive(Clone, Copy, Debug, PartialEq, Eq, Structural)]
pub enum Verdict {
    /// The signature is one of the key over the message.
    Valid,
    /// Key and signature could be read, and the signature is not one of the key over the message.
    Invalid,
    /// The key is no point of the curve in SEC1 form.
    MalformedKey,
    /// The signature is not two scalars in range, 32 bytes each.
    MalformedSignature,
}

/// How the check of a signature over a message ends with ECDSA on P-256 and
/// SHA-256, the key given in SEC1 form and the signature as `r` and `s`.
pub uninterp spec fn p256_verdict(message: Seq<u8>, signature: Seq<u8>, key: Seq<u8>) -> Verdict;

/// `VerifyingKey::from_sec1_bytes`, `Signature::from_slice` and
/// `Verifier::verify` of `p256::ecdsa`. The key is read first, then the
/// signature, which must have exactly 64 bytes; then the signature is
/// checked over the SHA-256 digest of the message. The outcome depends on
/// the three byte strings alone.
#[verifier::external_body]
fn p256_verify(message: &[u8], signature: &[u8], key: &[u8]) -> (out: Verdict)
    ensures
        out == p256_verdict(message@, signature@, key@),
        (out is Valid || out is Invalid) ==> signature@.len() == 64,
{
    let Ok(key) = p256::ecdsa::VerifyingKey::from_sec1_bytes(key) else {
        return Verdict::MalformedKey;
    };
    let Ok(signature) = p256::ecdsa::Signature::from_slice(signature) else {
        return Verdict::MalformedSignature;
    };
    match p256::ecdsa::signature::Verifier::verify(&key, message, &signature) {
        Ok(()) => Verdict::Valid,
        Err(_) => Verdict::Invalid,
    }
}

impl Verdict {
    /// Only a valid signature is accepted; a key or a signature that cannot
    /// be read counts like a signature that does not match.
    pub open spec fn spec_accepted(self) -> bool {
        self is Valid
    }

    /// Only a valid signature is accepted; a key or a signature that cannot
    /// be read counts like a signature that does not match.
    #[verifier::when_used_as_spec(spec_accepted)]
    pub fn accepted(self) -> (out: bool)
        ensures
            out == self.spec_accepted(),
    {
        match self {
            Verdict::Valid => true,
            _ => false,
        }
    }
}

/// Checks the signature of an envelope and says how the check ended.
pub fn check_signature(sign_tx: &SignTx) -> (out: Verdict)
    ensures
        out == p256_verdict(sign_tx.message@, sign_tx.signature@, sign_tx.v_key@),
        sign_tx.signature@.len() != 64 ==> !out.accepted(),
{
    p256_verify(sign_tx.message.as_slice(), sign_tx.signature.as_slice(), sign_tx.v_key.as_slice())
}

/// Whether the signature of an envelope verifies under the key that came
/// with it. A signature of any length but 64 bytes never does.
pub fn verify_signature(sign_tx: &SignTx) -> (out: bool)
    ensures
        out == p256_verdict(sign_tx.message@, sign_tx.signature@, sign_tx.v_key@).accepted(),
        sign_tx.signature@.len() != 64 ==> !out,
{
    check_signature(sign_tx).accepted()
}

} // verus!
