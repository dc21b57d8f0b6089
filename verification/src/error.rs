//! The failures that the oracle reports, by kind.

use vstd::prelude::*;

verus! {

/// A piece of input whose bytes or text could not be decoded.
#[derive(Clone, Copy, Debug, PartialEq, Eq, Structural)]
pub enum Malformed {
    /// The peer's public key in a key agreement.
    PeerKey,
    /// The recipient address of a transfer.
    Recipient,
    /// The address of the token contract.
    TokenAddress,
    /// The interface description of the token contract.
    Abi,
    /// The private key that signs.
    SigningKey,
    /// A message to sign that is not a 32-byte digest.
    Digest,
    /// The decrypted request.
    Request,
    /// A signature from which a signer is to be recovered.
    Recovery,
}

/// Why a caller was not admitted.
#[derive(Clone, Copy, Debug, PartialEq, Eq, Structural)]
pub enum AuthFailure {
    /// No session secret is stored for the identity.
    UnknownIdentity,
    /// The envelope's signature does not verify.
    Verification,
}

/// A field that only the token path needs.
#[derive(Clone, Copy, Debug, PartialEq, Eq, Structural)]
pub enum Field {
    TokenAddress,
    Abi,
}

/// A numeric field of a request.
#[derive(Clone, Copy, Debug, PartialEq, Eq, Structural)]
pub enum Number {
    ChainId,
    Value,
    Nonce,
    Gas,
    GasPrice,
    PriorityFee,
}

/// A failure of the oracle.
#[derive(Clone, Copy, Debug, PartialEq, Eq, Structural)]
pub enum HsmError {
    /// Malformed key, signature, address or interface bytes.
    Decode(Malformed),
    /// Unknown identity or failed verification.
    Auth(AuthFailure),
    /// A field that the chosen path needs is absent.
    MissingField(Field),
    /// A numeric field is not a decimal number in range.
    NumericParse(Number),
    /// The session store could not be reached.
    Store,
    /// The chain endpoint could not be reached.
    Network,
    /// The transaction format tag is none of the known ones.
    UnsupportedFormat,
    /// The transaction has more bytes than the header of its list can count.
    Oversize,
}

impl HsmError {
    /// Whether the failure is a business outcome, answered with a complete
    /// fail payload, rather than one that ends the request without a payload.
    pub open spec fn spec_is_business(self) -> bool {
        match self {
            HsmError::Store | HsmError::Network => false,
            HsmError::Auth(AuthFailure::UnknownIdentity) => false,
            _ => true,
        }
    }

    /// Whether the failure is a business outcome, answered with a complete
    /// fail payload, rather than one that ends the request without a payload.
    #[verifier::when_used_as_spec(spec_is_business)]
    pub fn is_business(self) -> (b: bool)
        ensures
            b == self.spec_is_business(),
    {
        match self {
            HsmError::Store | HsmError::Network => false,
            HsmError::Auth(AuthFailure::UnknownIdentity) => false,
            _ => true,
        }
    }
}


impl HsmError {
    /// The text that tells a caller of the failure.
    pub open spec fn spec_message(self) -> Seq<char> {
        match self {
            HsmError::Auth(AuthFailure::Verification) => "Signature verification failed"@,
            HsmError::Auth(AuthFailure::UnknownIdentity) => "Key value not found"@,
            HsmError::MissingField(_) => "Error retrieving origin network: Token Address Not Found"@,
            HsmError::NumericParse(Number::ChainId) => "Error retrieving origin network: Error parsing chain id"@,
            HsmError::NumericParse(Number::Value) => "Error retrieving origin network: Error parsing value"@,
            HsmError::NumericParse(Number::Nonce) => "Error retrieving origin network: Error parsing nonce"@,
            HsmError::NumericParse(Number::Gas) => "Error retrieving origin network: Error parsing gas"@,
            HsmError::NumericParse(Number::GasPrice) => "Error retrieving origin network: Error parsing gas price"@,
            HsmError::NumericParse(Number::PriorityFee) => "Error retrieving origin network: Error parsing priority fee"@,
            HsmError::Decode(Malformed::PeerKey) => "Peer public key is invalid"@,
            HsmError::Decode(Malformed::Recipient) => "Error retrieving origin network: Error parsing receiver address"@,
            HsmError::Decode(Malformed::TokenAddress) => "Error retrieving origin network: Error parsing token address"@,
            HsmError::Decode(Malformed::Abi) => "Error retrieving origin network: Error Initialize Contract"@,
            HsmError::Decode(Malformed::SigningKey) => "Error retrieving origin network: Error parsing key"@,
            HsmError::Decode(Malformed::Digest) => "Message has to be a 32-bytes slice"@,
            HsmError::Decode(Malformed::Request) => "Error parsing decrypted payload to Broadcast Tx Struct"@,
            HsmError::Decode(Malformed::Recovery) => "Signature is invalid (check recovery id)"@,
            HsmError::Store => "Connection failed"@,
            HsmError::Network => "Error Initialize Transport"@,
            HsmError::UnsupportedFormat => "Error retrieving origin network: Unsupported transaction type"@,
            HsmError::Oversize => "Error retrieving origin network: Transaction too large"@,
        }
    }

    /// The text that tells a caller of the failure. A missing token address
    /// and a missing interface description are told in the same words.
    pub fn message(self) -> (out: String)
        ensures
            out@ == self.spec_message(),
    {
        let text = match self {
            HsmError::Auth(AuthFailure::Verification) => "Signature verification failed",
            HsmError::Auth(AuthFailure::UnknownIdentity) => "Key value not found",
            HsmError::MissingField(_) => "Error retrieving origin network: Token Address Not Found",
            HsmError::NumericParse(Number::ChainId) => "Error retrieving origin network: Error parsing chain id",
            HsmError::NumericParse(Number::Value) => "Error retrieving origin network: Error parsing value",
            HsmError::NumericParse(Number::Nonce) => "Error retrieving origin network: Error parsing nonce",
            HsmError::NumericParse(Number::Gas) => "Error retrieving origin network: Error parsing gas",
            HsmError::NumericParse(Number::GasPrice) => "Error retrieving origin network: Error parsing gas price",
            HsmError::NumericParse(Number::PriorityFee) => "Error retrieving origin network: Error parsing priority fee",
            HsmError::Decode(Malformed::PeerKey) => "Peer public key is invalid",
            HsmError::Decode(Malformed::Recipient) => "Error retrieving origin network: Error parsing receiver address",
            HsmError::Decode(Malformed::TokenAddress) => "Error retrieving origin network: Error parsing token address",
            HsmError::Decode(Malformed::Abi) => "Error retrieving origin network: Error Initialize Contract",
            HsmError::Decode(Malformed::SigningKey) => "Error retrieving origin network: Error parsing key",
            HsmError::Decode(Malformed::Digest) => "Message has to be a 32-bytes slice",
            HsmError::Decode(Malformed::Request) => "Error parsing decrypted payload to Broadcast Tx Struct",
            HsmError::Decode(Malformed::Recovery) => "Signature is invalid (check recovery id)",
            HsmError::Store => "Connection failed",
            HsmError::Network => "Error Initialize Transport",
            HsmError::UnsupportedFormat => "Error retrieving origin network: Unsupported transaction type",
            HsmError::Oversize => "Error retrieving origin network: Transaction too large",
        };
        text.to_owned()
    }
}

} // verus!
