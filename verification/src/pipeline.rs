//! The envelope pipeline: from a signed, encrypted request to an encrypted,
//! signed transaction, one step at a time.
//!
//! The pipeline decides; its caller does the work that needs the outside
//! world: the lookup in the session store, decryption and encryption. Each
//! step takes the stage a request is in and what just happened, and gives
//! the next stage and what to do next. A request passes through the stages
//!
//! received, verified, decrypted, built, signed, encrypted, responded
//!
//! in this order. A request that fails is aborted, either where it was
//! received or where its transaction was to be built and signed. The
//! envelope is verified before anything is decrypted.

use vstd::prelude::*;
use crate::envelope::{check_signature, p256_verdict, SignTx};
use crate::error::{AuthFailure, HsmError, Malformed};
use crate::request::{
    native_signed, sign_erc20, sign_raw_tx, token_signed, SignRawTxFeild, SignedView,
    TxBroadcastRequest,
};

verus! {

/// The identity of a peer: its public key.
#[derive(Clone, Debug)]
pub struct Pk {
    pub pk: Vec<u8>,
}

/// A request as it arrives: the envelope as text, and the identity of the sender.
#[derive(Clone, Debug)]
pub struct TxRequestTest {
    pub sign_tx: String,
    pub pk: Vec<u8>,
}

/// The kind of transfer that a request asks for.
#[derive(Clone, Copy, Debug, PartialEq, Eq, Structural)]
pub enum Path {
    /// A transfer of the chain's own currency.
    Native,
    /// A transfer of an ERC-20 token.
    Token,
}

/// The answer to a request: a complete success or a complete failure.
#[derive(Clone, Debug)]
pub enum Response {
    /// The encrypted signed transaction, the hash that was signed and the
    /// signature in its compact form.
    Success { data: Vec<u8>, message: [u8; 32], signature: Vec<u8> },
    /// The reason why nothing was signed.
    Fail { error: HsmError },
}

/// Where a request stands.
#[derive(Clone, Debug)]
pub enum Stage {
    /// The envelope has arrived; the session secret is being looked up.
    Received { envelope: SignTx, path: Path },
    /// The signature has been verified; the message is being decrypted.
    Verified { secret: Vec<u8>, path: Path },
    /// The message has been decrypted; a request that could not be read is absent.
    Decrypted { secret: Vec<u8>, path: Path, request: Option<TxBroadcastRequest> },
    /// The request has been handed to the builder of its path.
    Built { secret: Vec<u8>, path: Path, request: Option<TxBroadcastRequest> },
    /// The transaction has been signed; it is being encrypted.
    Signed { secret: Vec<u8>, signed: SignRawTxFeild },
    /// The answer is on its way.
    Encrypted,
    /// The request has been answered.
    Responded,
    /// The request has failed.
    Aborted,
}

/// What happened outside.
#[derive(Clone, Debug)]
pub enum Event {
    /// The store has answered: the session secret of the identity, if it has one.
    Secret(Option<Vec<u8>>),
    /// The message has been decrypted: the request, if it could be read.
    Plaintext(Option<TxBroadcastRequest>),
    /// The signed transaction has been encrypted.
    Ciphertext(Vec<u8>),
    /// Nothing; the pipeline may go on.
    Proceed,
}

/// What to do next.
#[derive(Clone, Debug)]
pub enum Action {
    /// Decrypt the message with the secret and come back with the plaintext.
    Decrypt { cipher_message: Vec<u8>, secret: Vec<u8> },
    /// Encrypt the signed transaction with the secret and come back with the ciphertext.
    Encrypt { raw_transaction: Vec<u8>, secret: Vec<u8> },
    /// Come back at once.
    Proceed,
    /// Answer the request.
    Respond(Response),
    /// End the request without an answer.
    Reject(HsmError),
    /// Nothing: the event does not belong to the stage.
    Halt,
}

impl Response {
    /// The status of the answer.
    pub open spec fn spec_status(self) -> Seq<char> {
        match self {
            Response::Success { .. } => "success"@,
            Response::Fail { .. } => "fail"@,
        }
    }

    /// The status of the answer: "success" or "fail".
    pub fn status(&self) -> (out: String)
        ensures
            out@ == self.spec_status(),
    {
        match self {
            Response::Success { .. } => "success".to_owned(),
            Response::Fail { .. } => "fail".to_owned(),
        }
    }
}

/// What signing the transfer of a request yields on a path.
pub open spec fn path_signed(
    path: Path,
    request: Option<TxBroadcastRequest>,
    key_text: Seq<char>,
) -> Result<SignedView, HsmError> {
    match request {
        None => Err(HsmError::Decode(Malformed::Request)),
        Some(r) => match path {
            Path::Native => native_signed(r, key_text),
            Path::Token => token_signed(r, key_text),
        },
    }
}

/// A copy of a byte string.
fn copy_bytes(bytes: &Vec<u8>) -> (out: Vec<u8>)
    ensures
        out@ == bytes@,
{
    vstd::slice::slice_to_vec(bytes.as_slice())
}

/// The store has answered. Without a secret the identity is unknown and the
/// request ends without an answer. With one the envelope is verified: a
/// signature that verifies lets the message be decrypted, any other aborts
/// the request with a fail answer.
pub fn on_secret(envelope: SignTx, path: Path, secret: Option<Vec<u8>>) -> (out: (Stage, Action))
    ensures
        match secret {
            None => out.0 is Aborted && out.1 == Action::Reject(
                HsmError::Auth(AuthFailure::UnknownIdentity),
            ),
            Some(s) => if p256_verdict(
                envelope.message@,
                envelope.signature@,
                envelope.v_key@,
            ).accepted() {
                &&& out.0 == (Stage::Verified { secret: s, path })
                &&& out.1 matches Action::Decrypt { cipher_message, secret: copy }
                &&& cipher_message == envelope.message
                &&& copy@ == s@
            } else {
                &&& out.0 is Aborted
                &&& out.1 == Action::Respond(
                    Response::Fail { error: HsmError::Auth(AuthFailure::Verification) },
                )
            },
        },
{
    match secret {
        None => (Stage::Aborted, Action::Reject(HsmError::Auth(AuthFailure::UnknownIdentity))),
        Some(s) => {
            if check_signature(&envelope).accepted() {
                let copy = copy_bytes(&s);
                (
                    Stage::Verified { secret: s, path },
                    Action::Decrypt { cipher_message: envelope.message, secret: copy },
                )
            } else {
                (
                    Stage::Aborted,
                    Action::Respond(
                        Response::Fail { error: HsmError::Auth(AuthFailure::Verification) },
                    ),
                )
            }
        },
    }
}

/// The builder has the request. The transaction is built and signed; then
/// it is to be encrypted under the secret of the session. A request that could
/// not be read, or that the builder or the signer refuses, aborts with a
/// fail answer that names the reason.
pub fn on_built(
    secret: Vec<u8>,
    path: Path,
    request: Option<TxBroadcastRequest>,
    private_key: &str,
) -> (out: (Stage, Action))
    ensures
        match path_signed(path, request, private_key@) {
            Ok(view) => {
                &&& out.0 matches Stage::Signed { secret: kept, signed }
                &&& kept == secret
                &&& signed@ == view
                &&& out.1 matches Action::Encrypt { raw_transaction, secret: copy }
                &&& raw_transaction@ == view.r_tx
                &&& copy@ == secret@
            },
            Err(e) => out.0 is Aborted && out.1 == Action::Respond(Response::Fail { error: e })
                && e.is_business(),
        },
{
    let outcome = match &request {
        None => Err(HsmError::Decode(Malformed::Request)),
        Some(r) => match path {
            Path::Native => sign_raw_tx(r, private_key),
            Path::Token => sign_erc20(r, private_key),
        },
    };
    match outcome {
        Ok(signed) => {
            let raw_transaction = copy_bytes(&signed.r_tx);
            let copy = copy_bytes(&secret);
            (Stage::Signed { secret, signed }, Action::Encrypt { raw_transaction, secret: copy })
        },
        Err(e) => (Stage::Aborted, Action::Respond(Response::Fail { error: e })),
    }
}

/// The signed transaction has been encrypted: the answer is a success that
/// carries the ciphertext, the hash that was signed and the signature.
pub fn on_ciphertext(signed: SignRawTxFeild, ciphertext: Vec<u8>) -> (out: (Stage, Action))
    ensures
        out.0 is Encrypted,
        out.1 == Action::Respond(
            Response::Success {
                data: ciphertext,
                message: signed.message,
                signature: signed.signature,
            },
        ),
{
    (
        Stage::Encrypted,
        Action::Respond(
            Response::Success {
                data: ciphertext,
                message: signed.message,
                signature: signed.signature,
            },
        ),
    )
}

/// Takes a request one step further. An event that does not belong to the
/// stage changes nothing. The private key is read only where the request is
/// signed.
pub fn step(stage: Stage, event: Event, private_key: &str) -> (out: (Stage, Action))
    ensures
        match (stage, event) {
            (Stage::Received { envelope, path }, Event::Secret(None)) => {
                out.0 is Aborted && out.1 == Action::Reject(
                    HsmError::Auth(AuthFailure::UnknownIdentity),
                )
            },
            (Stage::Received { envelope, path }, Event::Secret(Some(s))) => if p256_verdict(
                envelope.message@,
                envelope.signature@,
                envelope.v_key@,
            ).accepted() {
                &&& out.0 == (Stage::Verified { secret: s, path })
                &&& out.1 matches Action::Decrypt { cipher_message, secret: copy }
                &&& cipher_message == envelope.message
                &&& copy@ == s@
            } else {
                &&& out.0 is Aborted
                &&& out.1 == Action::Respond(
                    Response::Fail { error: HsmError::Auth(AuthFailure::Verification) },
                )
            },
            (Stage::Verified { secret, path }, Event::Plaintext(request)) => {
                out.0 == (Stage::Decrypted { secret, path, request }) && out.1 is Proceed
            },
            (Stage::Decrypted { secret, path, request }, Event::Proceed) => {
                out.0 == (Stage::Built { secret, path, request }) && out.1 is Proceed
            },
            (Stage::Built { secret, path, request }, Event::Proceed) => match path_signed(
                path,
                request,
                private_key@,
            ) {
                Ok(view) => {
                    &&& out.0 matches Stage::Signed { secret: kept, signed }
                    &&& kept == secret
                    &&& signed@ == view
                    &&& out.1 matches Action::Encrypt { raw_transaction, secret: copy }
                    &&& raw_transaction@ == view.r_tx
                    &&& copy@ == secret@
                },
                Err(e) => out.0 is Aborted && out.1 == Action::Respond(
                    Response::Fail { error: e },
                ),
            },
            (Stage::Signed { secret, signed }, Event::Ciphertext(ciphertext)) => {
                out.0 is Encrypted && out.1 == Action::Respond(
                    Response::Success {
                        data: ciphertext,
                        message: signed.message,
                        signature: signed.signature,
                    },
                )
            },
            (Stage::Encrypted, Event::Proceed) => out.0 is Responded && out.1 is Halt,
            _ => out.0 == stage && out.1 is Halt,
        },
        out.1 is Decrypt ==> (stage matches Stage::Received { envelope, .. } && p256_verdict(
            envelope.message@,
            envelope.signature@,
            envelope.v_key@,
        ).accepted()),
        out.0 is Aborted ==> stage is Received || stage is Built || stage is Aborted,
        out.1 matches Action::Respond(Response::Fail { error }) ==> error.is_business(),
        out.1 matches Action::Reject(error) ==> !error.is_business(),
{
    match (stage, event) {
        (Stage::Received { envelope, path }, Event::Secret(secret)) => on_secret(
            envelope,
            path,
            secret,
        ),
        (Stage::Verified { secret, path }, Event::Plaintext(request)) => (
            Stage::Decrypted { secret, path, request },
            Action::Proceed,
        ),
        (Stage::Decrypted { secret, path, request }, Event::Proceed) => (
            Stage::Built { secret, path, request },
            Action::Proceed,
        ),
        (Stage::Built { secret, path, request }, Event::Proceed) => on_built(
            secret,
            path,
            request,
            private_key,
        ),
        (Stage::Signed { secret, signed }, Event::Ciphertext(ciphertext)) => on_ciphertext(
            signed,
            ciphertext,
        ),
        (Stage::Encrypted, Event::Proceed) => (Stage::Responded, Action::Halt),
        (other, _) => (other, Action::Halt),
    }
}

} // verus!
