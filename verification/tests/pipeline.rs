use hsm_signer::envelope::SignTx;
use hsm_signer::error::{AuthFailure, Field, HsmError, Malformed, Number};
use hsm_signer::pipeline::{
    on_built, on_ciphertext, on_secret, step, Action, Event, Path, Pk, Response, Stage,
    TxRequestTest,
};
use hsm_signer::request::{
    build_native_transfer, SignRawTxFeild, TxBroadcastRequest, TxRequest,
};
use hsm_signer::session::{hsm_generate_pk, SessionStore};
use hsm_signer::transaction::{encode, Signature};
use p256::ecdsa::signature::Signer;

const KEY: &str = "4646464646464646464646464646464646464646464646464646464646464646";
const ABI: &str = "[{\"type\":\"function\",\"name\":\"transfer\",\"inputs\":[{\"name\":\"to\",\"type\":\"address\"},{\"name\":\"value\",\"type\":\"uint256\"}],\"outputs\":[],\"stateMutability\":\"nonpayable\"}]";

fn toy_cipher(secret: &[u8], text: &[u8]) -> Vec<u8> {
    text.iter().enumerate().map(|(i, byte)| byte ^ secret[i % secret.len()] ^ 0x5a).collect()
}

fn request(token: bool) -> TxBroadcastRequest {
    TxBroadcastRequest {
        network_rpc: "http://localhost:8545".to_string(),
        bridge_address: "0xabcdefabcdefabcdefabcdefabcdefabcdefabcd".to_string(),
        tx: TxRequest {
            chain_id: "1".to_string(),
            to: "0xabcdefabcdefabcdefabcdefabcdefabcdefabcd".to_string(),
            nonce: "0".to_string(),
            value: "1000".to_string(),
            gas: "21000".to_string(),
            gas_price: "1000000000".to_string(),
            transaction_type: None,
            max_priority_fee_per_gas: None,
        },
        token_address: if token {
            Some("0xdac17f958d2ee523a2206206994597c13d831ec7".to_string())
        } else {
            None
        },
        abi: if token { Some(ABI.to_string()) } else { None },
    }
}

fn signed_envelope(message: &[u8]) -> SignTx {
    let signing = p256::ecdsa::SigningKey::from_slice(&[7u8; 32]).expect("a scalar");
    let signature: p256::ecdsa::Signature = signing.sign(message);
    SignTx {
        message: message.to_vec(),
        signature: signature.to_bytes().to_vec(),
        v_key: signing.verifying_key().to_encoded_point(false).as_bytes().to_vec(),
    }
}

fn run(
    envelope: SignTx,
    path: Path,
    secret: Option<Vec<u8>>,
    plaintext: Option<TxBroadcastRequest>,
) -> (Vec<&'static str>, Option<Response>, Option<HsmError>) {
    let mut trace = Vec::new();
    let mut stage = Stage::Received { envelope, path };
    let mut event = Event::Secret(secret);
    for _ in 0..16 {
        let (next, action) = step(stage, event, KEY);
        stage = next;
        match action {
            Action::Decrypt { cipher_message, secret } => {
                trace.push("decrypt");
                assert_eq!(toy_cipher(&secret, &cipher_message), b"the request".to_vec());
                event = Event::Plaintext(plaintext.clone());
            }
            Action::Encrypt { raw_transaction, secret } => {
                trace.push("encrypt");
                event = Event::Ciphertext(toy_cipher(&secret, &raw_transaction));
            }
            Action::Proceed => {
                trace.push("proceed");
                event = Event::Proceed;
            }
            Action::Respond(response) => {
                trace.push("respond");
                if matches!(stage, Stage::Encrypted) {
                    let (last, halt) = step(stage, Event::Proceed, KEY);
                    assert!(matches!(last, Stage::Responded));
                    assert!(matches!(halt, Action::Halt));
                } else {
                    assert!(matches!(stage, Stage::Aborted));
                }
                return (trace, Some(response), None);
            }
            Action::Reject(error) => {
                trace.push("reject");
                assert!(matches!(stage, Stage::Aborted));
                return (trace, None, Some(error));
            }
            Action::Halt => {
                panic!("the pipeline halted in the middle");
            }
        }
    }
    panic!("the pipeline did not end");
}

#[test]
fn request_is_verified_decrypted_signed_and_encrypted() {
    let peer = p256::SecretKey::from_slice(&[9u8; 32]).expect("a scalar");
    let identity = peer.public_key().to_sec1_bytes().to_vec();
    let handshake = hsm_generate_pk(&identity).expect("a handshake");
    let secret = handshake.record.shared_secret.clone();
    let mut store = SessionStore::new();
    store.set(handshake.record);

    let envelope = signed_envelope(&toy_cipher(&secret, b"the request"));
    let (trace, response, error) =
        run(envelope, Path::Native, store.get(&identity), Some(request(false)));
    assert_eq!(trace, vec!["decrypt", "proceed", "proceed", "encrypt", "respond"]);
    assert_eq!(error, None);
    let response = response.expect("an answer");
    assert_eq!(response.status(), "success");
    match response {
        Response::Success { data, message, signature } => {
            let tx = build_native_transfer(&request(false)).expect("built");
            assert_eq!(tx.transaction_type, None);
            let unsigned = encode(&tx, 1, None).expect("legacy");
            assert_eq!(rlp::Rlp::new(&unsigned).item_count().expect("a list"), 9);
            assert_eq!(message, web3::signing::keccak256(&unsigned));
            assert_eq!(signature.len(), 65);
            assert!(signature[64] == 37 || signature[64] == 38);
            let mut r = [0u8; 32];
            let mut s = [0u8; 32];
            r.copy_from_slice(&signature[..32]);
            s.copy_from_slice(&signature[32..64]);
            let signed = encode(&tx, 1, Some(Signature { v: signature[64] as u64, r, s }))
                .expect("legacy");
            assert_eq!(toy_cipher(&secret, &data), signed);
        }
        Response::Fail { error } => panic!("failed: {}", error.message()),
    }
}

#[test]
fn token_request_without_token_address_fails_before_signing() {
    let secret = vec![3u8; 32];
    let mut store = SessionStore::new();
    store.set(hsm_signer::session::SessionKeyRecord {
        identity: b"peer".to_vec(),
        shared_secret: secret.clone(),
    });
    let envelope = signed_envelope(&toy_cipher(&secret, b"the request"));
    let mut asked = request(true);
    asked.token_address = None;
    let (trace, response, error) = run(envelope, Path::Token, store.get(b"peer"), Some(asked));
    assert_eq!(trace, vec!["decrypt", "proceed", "proceed", "respond"]);
    assert_eq!(error, None);
    let response = response.expect("an answer");
    assert_eq!(response.status(), "fail");
    match response {
        Response::Fail { error } => {
            assert_eq!(error, HsmError::MissingField(Field::TokenAddress));
            assert!(error.message().contains("Token Address Not Found"));
            assert!(error.is_business());
        }
        Response::Success { .. } => panic!("signed"),
    }
    assert_eq!(store.get(b"peer"), Some(secret));
}

#[test]
fn envelope_that_does_not_verify_is_never_decrypted() {
    let secret = vec![3u8; 32];
    let mut envelope = signed_envelope(&toy_cipher(&secret, b"the request"));
    envelope.v_key = p256::SecretKey::from_slice(&[9u8; 32])
        .expect("a scalar")
        .public_key()
        .to_sec1_bytes()
        .to_vec();
    let (trace, response, error) =
        run(envelope, Path::Native, Some(secret), Some(request(false)));
    assert_eq!(trace, vec!["respond"]);
    assert_eq!(error, None);
    let response = response.expect("an answer");
    assert_eq!(response.status(), "fail");
    match response {
        Response::Fail { error } => {
            assert_eq!(error, HsmError::Auth(AuthFailure::Verification));
            assert_eq!(error.message(), "Signature verification failed");
        }
        Response::Success { .. } => panic!("signed"),
    }
}

#[test]
fn unknown_identity_ends_without_an_answer() {
    let store = SessionStore::new();
    let envelope = signed_envelope(b"anything");
    let (trace, response, error) =
        run(envelope, Path::Native, store.get(b"nobody"), Some(request(false)));
    assert_eq!(trace, vec!["reject"]);
    assert!(response.is_none());
    assert_eq!(error, Some(HsmError::Auth(AuthFailure::UnknownIdentity)));
    assert!(!HsmError::Auth(AuthFailure::UnknownIdentity).is_business());
}

#[test]
fn token_request_is_signed_too() {
    let secret = vec![3u8; 32];
    let envelope = signed_envelope(&toy_cipher(&secret, b"the request"));
    let (trace, response, _) =
        run(envelope, Path::Token, Some(secret.clone()), Some(request(true)));
    assert_eq!(trace, vec!["decrypt", "proceed", "proceed", "encrypt", "respond"]);
    match response.expect("an answer") {
        Response::Success { data, signature, .. } => {
            let raw = toy_cipher(&secret, &data);
            let list = rlp::Rlp::new(&raw);
            assert_eq!(list.item_count().expect("a list"), 9);
            assert_eq!(
                hex::encode(list.at(3).expect("to").data().expect("bytes")),
                "dac17f958d2ee523a2206206994597c13d831ec7"
            );
            assert_eq!(list.at(4).expect("value").data().expect("bytes"), &[] as &[u8]);
            assert_eq!(list.at(5).expect("data").data().expect("bytes").len(), 68);
            assert!(signature[64] == 37 || signature[64] == 38);
        }
        Response::Fail { error } => panic!("failed: {}", error.message()),
    }
}

#[test]
fn unreadable_plaintext_fails_the_request() {
    let secret = vec![3u8; 32];
    let envelope = signed_envelope(&toy_cipher(&secret, b"the request"));
    let (trace, response, _) = run(envelope, Path::Native, Some(secret), None);
    assert_eq!(trace, vec!["decrypt", "proceed", "proceed", "respond"]);
    match response.expect("an answer") {
        Response::Fail { error } => assert_eq!(error, HsmError::Decode(Malformed::Request)),
        Response::Success { .. } => panic!("signed"),
    }
}

#[test]
fn business_failures_are_fail_answers() {
    let secret = vec![3u8; 32];
    let mut bad_number = request(false);
    bad_number.tx.gas = "lots".to_string();
    let mut bad_format = request(false);
    bad_format.tx.transaction_type = Some(3);
    let mut bad_recipient = request(false);
    bad_recipient.tx.to = "0xABC".to_string();
    let cases = [
        (bad_number, HsmError::NumericParse(Number::Gas)),
        (bad_format, HsmError::UnsupportedFormat),
        (bad_recipient, HsmError::Decode(Malformed::Recipient)),
    ];
    for (asked, expected) in cases {
        let envelope = signed_envelope(&toy_cipher(&secret, b"the request"));
        let (trace, response, error) =
            run(envelope, Path::Native, Some(secret.clone()), Some(asked));
        assert_eq!(trace, vec!["decrypt", "proceed", "proceed", "respond"]);
        assert_eq!(error, None);
        let response = response.expect("an answer");
        assert_eq!(response.status(), "fail");
        match response {
            Response::Fail { error } => assert_eq!(error, expected),
            Response::Success { .. } => panic!("signed"),
        }
    }
}

#[test]
fn events_out_of_turn_change_nothing() {
    let envelope = signed_envelope(b"anything");
    let (stage, action) =
        step(Stage::Received { envelope, path: Path::Native }, Event::Proceed, KEY);
    assert!(matches!(stage, Stage::Received { .. }));
    assert!(matches!(action, Action::Halt));
    let (stage, action) = step(stage, Event::Ciphertext(vec![1]), KEY);
    assert!(matches!(stage, Stage::Received { .. }));
    assert!(matches!(action, Action::Halt));
    let (stage, action) = step(
        Stage::Verified { secret: vec![1], path: Path::Token },
        Event::Secret(Some(vec![2])),
        KEY,
    );
    assert!(matches!(stage, Stage::Verified { .. }));
    assert!(matches!(action, Action::Halt));
    for event in [Event::Proceed, Event::Secret(None), Event::Plaintext(None)] {
        let (stage, action) = step(Stage::Responded, event.clone(), KEY);
        assert!(matches!(stage, Stage::Responded));
        assert!(matches!(action, Action::Halt));
        let (stage, action) = step(Stage::Aborted, event, KEY);
        assert!(matches!(stage, Stage::Aborted));
        assert!(matches!(action, Action::Halt));
    }
}

#[test]
fn single_steps_hand_on_what_they_were_given() {
    let secret = vec![3u8; 32];
    let envelope = signed_envelope(b"cipher");
    let (stage, action) = on_secret(envelope, Path::Token, Some(secret.clone()));
    match (stage, action) {
        (Stage::Verified { secret: kept, path }, Action::Decrypt { cipher_message, secret: copy }) => {
            assert_eq!(kept, secret);
            assert_eq!(copy, secret);
            assert_eq!(path, Path::Token);
            assert_eq!(cipher_message, b"cipher".to_vec());
        }
        _ => panic!("not verified"),
    }
    let (stage, action) = on_built(secret.clone(), Path::Native, Some(request(false)), KEY);
    match (stage, action) {
        (Stage::Signed { secret: kept, signed }, Action::Encrypt { raw_transaction, secret: copy }) => {
            assert_eq!(kept, secret);
            assert_eq!(copy, secret);
            assert_eq!(raw_transaction, signed.r_tx);
        }
        _ => panic!("not signed"),
    }
    let (stage, action) = on_built(secret, Path::Native, Some(request(false)), "no key");
    assert!(matches!(stage, Stage::Aborted));
    match action {
        Action::Respond(Response::Fail { error }) => {
            assert_eq!(error, HsmError::Decode(Malformed::SigningKey))
        }
        _ => panic!("not refused"),
    }
    let signed = SignRawTxFeild { message: [8; 32], r_tx: vec![1, 2], signature: vec![9; 65] };
    let (stage, action) = on_ciphertext(signed, vec![7, 7]);
    assert!(matches!(stage, Stage::Encrypted));
    match action {
        Action::Respond(Response::Success { data, message, signature }) => {
            assert_eq!(data, vec![7, 7]);
            assert_eq!(message, [8; 32]);
            assert_eq!(signature, vec![9; 65]);
        }
        _ => panic!("no answer"),
    }
}

#[test]
fn payloads_hold_what_arrives() {
    let pk = Pk { pk: vec![4, 1, 2] };
    assert_eq!(pk.pk, vec![4, 1, 2]);
    let arrived = TxRequestTest { sign_tx: "{}".to_string(), pk: vec![1] };
    assert_eq!(arrived.sign_tx, "{}");
    assert_eq!(arrived.pk, vec![1]);
}
