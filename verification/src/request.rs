//! Requests to sign, and the transactions built from them.
//!
//! A request names its numbers as decimal text and its addresses as
//! hexadecimal text. A native transfer sends value to the recipient. A token
//! transfer calls `transfer` on the token contract, with the recipient and
//! the amount as arguments, and sends no value.

use vstd::prelude::*;
use crate::error::{Field, HsmError, Malformed, Number};
use crate::primitives::{
    address_from_text, be_word, decimal_value, fits_in_bytes, is_u256_text, lemma_be_bytes_len,
    lemma_be_value_fits, lemma_be_word_of_value, parse_u64, u64_from_text, Address, U256,
};
use crate::rlp::{rlp_list, rlp_string, MAX_PAYLOAD};
use crate::signer::{
    chain_protected, combined_sign_bytes, compact_form, ecdsa_signature, lemma_signable_encodable,
    lemma_uint_len, sign_raw, signable, signature_for, signing_hash, MAX_TRAILING,
};
use crate::transaction::{
    body_fields, dynamic_fee_fields, encoding, format_of, legacy_fields, recipient_item, Intent,
    TransactionParam, TxFormat, EIP1559_TX_ID,
};

verus! {

/// The fields of a transfer, as text.
#[derive(Clone, Debug)]
pub struct TxRequest {
    pub chain_id: String,
    pub to: String,
    pub nonce: String,
    pub value: String,
    pub gas: String,
    pub gas_price: String,
    /// The format tag; absent means legacy.
    pub transaction_type: Option<u64>,
    /// The priority fee of the dynamic-fee format; absent means the gas price.
    pub max_priority_fee_per_gas: Option<String>,
}

/// A request to sign a transfer.
#[derive(Clone, Debug)]
pub struct TxBroadcastRequest {
    pub network_rpc: String,
    pub bridge_address: String,
    pub tx: TxRequest,
    /// The token contract; the token path needs it.
    pub token_address: Option<String>,
    /// The interface description of the token contract, as JSON text; the
    /// token path needs it.
    pub abi: Option<String>,
}

/// What a signing yields: the hash that was signed, the signed transaction
/// and the signature in its 65-byte compact form.
#[derive(Clone, Debug)]
pub struct SignRawTxFeild {
    pub message: [u8; 32],
    pub r_tx: Vec<u8>,
    pub signature: Vec<u8>,
}

/// The first four bytes of the call data of a function of an interface
/// description, where the description can be read and its first function
/// of that name takes an address and an unsigned integer.
pub uninterp spec fn abi_selector(abi: Seq<char>, function: Seq<char>) -> Option<Seq<u8>>;

/// The 32-byte private key that a text of hexadecimal digits denotes, if it denotes one.
pub uninterp spec fn secret_key_from_text(text: Seq<char>) -> Option<Seq<u8>>;

/// An address as a 32-byte argument of a call: twelve zeros, then the address.
pub open spec fn address_word(address: Seq<u8>) -> Seq<u8> {
    Seq::new(12, |i: int| 0u8) + address
}

/// The call data of a token transfer: the selector, the recipient as a
/// word and the amount as a word.
pub open spec fn transfer_call(selector: Seq<u8>, to: Seq<u8>, amount: nat) -> Seq<u8> {
    selector + address_word(to) + be_word(amount, 32)
}

/// `Contract::load`, `Contract::function` and `Function::encode_input` of
/// `web3::ethabi`, with an address and an unsigned integer as the arguments.
/// The call data is the function's four-byte selector, then the address
/// padded on the left to 32 bytes, then the integer in 32 big-endian bytes.
/// There is none where the description cannot be read, has no function of
/// that name, or its first such function takes other arguments.
#[verifier::external_body]
fn abi_encode_call(abi: &str, function: &str, to: &Address, amount: &U256) -> (out: Option<
    Vec<u8>,
>)
    ensures
        match out {
            Some(data) => abi_selector(abi@, function@) matches Some(selector) && data@
                == selector + address_word(to@) + amount.bytes@ && data@.len() == 68,
            None => abi_selector(abi@, function@) is None,
        },
{
    let contract = web3::ethabi::Contract::load(abi.as_bytes()).ok()?;
    let recipient = web3::ethabi::Token::Address(web3::types::H160(to.bytes));
    let number = web3::ethabi::Token::Uint(web3::types::U256::from_big_endian(&amount.bytes));
    contract.function(function).ok()?.encode_input(&[recipient, number]).ok()
}

/// `from_str` and `secret_bytes` of `web3::signing::SecretKey`: 64
/// hexadecimal digits that denote a valid scalar of secp256k1.
#[verifier::external_body]
fn secret_key_from_str(text: &str) -> (out: Option<[u8; 32]>)
    ensures
        match out {
            Some(key) => secret_key_from_text(text@) == Some(key@),
            None => secret_key_from_text(text@) is None,
        },
{
    text.parse::<web3::signing::SecretKey>().ok().map(|key| key.secret_bytes())
}

/// Reads a private key from hexadecimal text.
pub fn parse_secret_key(text: &str) -> (out: Option<[u8; 32]>)
    ensures
        match out {
            Some(key) => secret_key_from_text(text@) == Some(key@),
            None => secret_key_from_text(text@) is None,
        },
{
    secret_key_from_str(text)
}

/// The view of an optional text.
pub open spec fn text_view(text: Option<String>) -> Option<Seq<char>> {
    match text {
        Some(t) => Some(t@),
        None => None,
    }
}

/// The priority fee of a transaction: the one given, if the format is the
/// dynamic-fee one and one is given; else the gas price.
pub open spec fn resolved_priority_fee(tag: Option<u64>, given: Option<nat>, gas_price: nat)
    -> nat {
    if tag == Some(EIP1559_TX_ID) {
        match given {
            Some(fee) => fee,
            None => gas_price,
        }
    } else {
        gas_price
    }
}

/// The first numeric field of a request that is no decimal number in range,
/// in the order value, nonce, gas price, gas.
pub open spec fn number_fault(tx: TxRequest) -> Option<Number> {
    if !is_u256_text(tx.value@) {
        Some(Number::Value)
    } else if !is_u256_text(tx.nonce@) {
        Some(Number::Nonce)
    } else if !is_u256_text(tx.gas_price@) {
        Some(Number::GasPrice)
    } else if !is_u256_text(tx.gas@) {
        Some(Number::Gas)
    } else {
        None
    }
}

/// Whether a priority fee is given that is no decimal number in range.
pub open spec fn priority_fee_fault(tx: TxRequest) -> bool {
    tx.max_priority_fee_per_gas matches Some(text) && !is_u256_text(text@)
}

/// The priority fee that a request gives, as a number.
pub open spec fn given_priority_fee(tx: TxRequest) -> Option<nat> {
    match tx.max_priority_fee_per_gas {
        Some(text) => Some(decimal_value(text@)),
        None => None,
    }
}

/// The fields that both kinds of transfer read alike, once the numbers and
/// the recipient have been read.
pub open spec fn intent_of(tx: TxRequest, to: Seq<u8>, value: nat, data: Seq<u8>) -> Intent {
    Intent {
        to: Some(to),
        nonce: decimal_value(tx.nonce@),
        gas: decimal_value(tx.gas@),
        gas_price: decimal_value(tx.gas_price@),
        value,
        data,
        transaction_type: tx.transaction_type,
        access_list: Seq::empty(),
        max_priority_fee_per_gas: resolved_priority_fee(
            tx.transaction_type,
            given_priority_fee(tx),
            decimal_value(tx.gas_price@),
        ),
    }
}

/// The native transfer that a request asks for, or the first reason why it
/// asks for none: a number that cannot be read, then a recipient that
/// cannot be read, then a priority fee that cannot be read. The transfer
/// sends the value to the recipient and carries no data.
pub open spec fn native_intent(request: TxBroadcastRequest) -> Result<Intent, HsmError> {
    let tx = request.tx;
    match number_fault(tx) {
        Some(field) => Err(HsmError::NumericParse(field)),
        None => match address_from_text(tx.to@) {
            None => Err(HsmError::Decode(Malformed::Recipient)),
            Some(to) => if priority_fee_fault(tx) {
                Err(HsmError::NumericParse(Number::PriorityFee))
            } else {
                Ok(intent_of(tx, to@, decimal_value(tx.value@), Seq::empty()))
            },
        },
    }
}

/// The token transfer that a request asks for, or the first reason why it
/// asks for none: a missing token address, a missing interface description,
/// a token address that cannot be read, a number that cannot be read, a
/// recipient that cannot be read, a priority fee that cannot be read, an
/// interface description that offers no `transfer` of an address and an
/// unsigned integer. The transfer goes to the token contract, sends no value
/// and carries the call as its data.
pub open spec fn token_intent(request: TxBroadcastRequest) -> Result<Intent, HsmError> {
    let tx = request.tx;
    match (request.token_address, request.abi) {
        (None, _) => Err(HsmError::MissingField(Field::TokenAddress)),
        (Some(_), None) => Err(HsmError::MissingField(Field::Abi)),
        (Some(token_text), Some(abi)) => match address_from_text(token_text@) {
            None => Err(HsmError::Decode(Malformed::TokenAddress)),
            Some(token) => match number_fault(tx) {
                Some(field) => Err(HsmError::NumericParse(field)),
                None => match address_from_text(tx.to@) {
                    None => Err(HsmError::Decode(Malformed::Recipient)),
                    Some(to) => if priority_fee_fault(tx) {
                        Err(HsmError::NumericParse(Number::PriorityFee))
                    } else {
                        match abi_selector(abi@, "transfer"@) {
                            None => Err(HsmError::Decode(Malformed::Abi)),
                            Some(selector) => Ok(
                                intent_of(
                                    tx,
                                    token@,
                                    0,
                                    transfer_call(selector, to@, decimal_value(tx.value@)),
                                ),
                            ),
                        }
                    },
                },
            },
        },
    }
}

/// What a signing yields, as mathematics sees it.
pub struct SignedView {
    pub message: Seq<u8>,
    pub r_tx: Seq<u8>,
    pub signature: Seq<u8>,
}

impl View for SignRawTxFeild {
    type V = SignedView;

    open spec fn view(&self) -> SignedView {
        SignedView { message: self.message@, r_tx: self.r_tx@, signature: self.signature@ }
    }
}

/// What signing a transaction yields under a key and a chain id given as
/// text, or the first reason why it yields nothing: a key that cannot be
/// read, a chain id that cannot be read, then whatever keeps the signer from signing.
pub open spec fn signed_field(intent: Intent, chain_text: Seq<char>, key_text: Seq<char>)
    -> Result<SignedView, HsmError> {
    match secret_key_from_text(key_text) {
        None => Err(HsmError::Decode(Malformed::SigningKey)),
        Some(key) => match u64_from_text(chain_text) {
            None => Err(HsmError::NumericParse(Number::ChainId)),
            Some(chain_id) => match format_of(intent.transaction_type) {
                None => Err(HsmError::UnsupportedFormat),
                Some(format) => match signature_for(intent, chain_id, key) {
                    Err(e) => Err(e),
                    Ok(signature) => Ok(
                        SignedView {
                            message: signing_hash(intent, format, chain_id),
                            r_tx: encoding(intent, format, chain_id, Some(signature)),
                            signature: compact_form(signature.v, signature.r, signature.s),
                        },
                    ),
                },
            },
        },
    }
}

/// What signing the native transfer of a request yields.
pub open spec fn native_signed(request: TxBroadcastRequest, key_text: Seq<char>) -> Result<
    SignedView,
    HsmError,
> {
    match native_intent(request) {
        Err(e) => Err(e),
        Ok(intent) => signed_field(intent, request.tx.chain_id@, key_text),
    }
}

/// What signing the token transfer of a request yields.
pub open spec fn token_signed(request: TxBroadcastRequest, key_text: Seq<char>) -> Result<
    SignedView,
    HsmError,
> {
    match token_intent(request) {
        Err(e) => Err(e),
        Ok(intent) => signed_field(intent, request.tx.chain_id@, key_text),
    }
}

/// A transfer with little data and no access list, as requests give them.
pub open spec fn is_plain(tx: Intent) -> bool {
    &&& tx.data.len() <= 68
    &&& tx.access_list.len() == 0
    &&& tx.to matches Some(to) && to.len() == 20
    &&& fits_in_bytes(tx.nonce, 32)
    &&& fits_in_bytes(tx.gas, 32)
    &&& fits_in_bytes(tx.gas_price, 32)
    &&& fits_in_bytes(tx.value, 32)
    &&& fits_in_bytes(tx.max_priority_fee_per_gas, 32)
}

/// A plain transfer leaves room for a signature in every format.
pub proof fn lemma_plain_is_signable(tx: Intent, chain_id: u64)
    requires
        is_plain(tx),
    ensures
        signable(tx, chain_id),
{
    assert forall|format: TxFormat| #[trigger]
        body_fields(tx, format, chain_id).len() + MAX_TRAILING <= MAX_PAYLOAD by {
        lemma_plain_body_len(tx, format, chain_id);
    }
}

/// The items of a plain transfer, without the trailing ones, take less than 400 bytes.
proof fn lemma_plain_body_len(tx: Intent, format: TxFormat, chain_id: u64)
    requires
        is_plain(tx),
    ensures
        body_fields(tx, format, chain_id).len() <= 400,
{
    assert(forall|x: u64| fits_in_bytes(x as nat, 8)) by {
        reveal_with_fuel(fits_in_bytes, 9);
    }
    lemma_uint_len(chain_id as nat, 8);
    lemma_uint_len(tx.nonce, 32);
    lemma_uint_len(tx.gas, 32);
    lemma_uint_len(tx.gas_price, 32);
    lemma_uint_len(tx.value, 32);
    lemma_uint_len(tx.max_priority_fee_per_gas, 32);
    assert(rlp_string(tx.data).len() <= 70) by {
        if tx.data.len() > 55 {
            assert(fits_in_bytes(tx.data.len(), 1)) by {
                reveal_with_fuel(fits_in_bytes, 2);
            }
            lemma_be_bytes_len(tx.data.len(), 1);
        }
    }
    assert(recipient_item(tx.to).len() == 21);
    assert(rlp_list(Seq::<u8>::empty()).len() == 1);
    assert(tx.access_list =~= Seq::empty());
    assert(legacy_fields(tx).len() <= 5 * 33 + 21 + 70);
    assert(dynamic_fee_fields(tx).len() <= 6 * 33 + 21 + 70);
}

/// Reads the four numbers that every transfer names: value, nonce, gas price, gas.
fn parse_numbers(tx: &TxRequest) -> (out: Result<(U256, U256, U256, U256), HsmError>)
    ensures
        match out {
            Ok((value, nonce, gas_price, gas)) => {
                &&& number_fault(*tx) is None
                &&& value@ == decimal_value(tx.value@)
                &&& nonce@ == decimal_value(tx.nonce@)
                &&& gas_price@ == decimal_value(tx.gas_price@)
                &&& gas@ == decimal_value(tx.gas@)
            },
            Err(e) => number_fault(*tx) matches Some(field) && e == HsmError::NumericParse(field),
        },
{
    let value = match U256::from_dec_str(tx.value.as_str()) {
        Some(n) => n,
        None => {
            return Err(HsmError::NumericParse(Number::Value));
        },
    };
    let nonce = match U256::from_dec_str(tx.nonce.as_str()) {
        Some(n) => n,
        None => {
            return Err(HsmError::NumericParse(Number::Nonce));
        },
    };
    let gas_price = match U256::from_dec_str(tx.gas_price.as_str()) {
        Some(n) => n,
        None => {
            return Err(HsmError::NumericParse(Number::GasPrice));
        },
    };
    let gas = match U256::from_dec_str(tx.gas.as_str()) {
        Some(n) => n,
        None => {
            return Err(HsmError::NumericParse(Number::Gas));
        },
    };
    Ok((value, nonce, gas_price, gas))
}

/// The priority fee of a transfer: the one the request gives, where the
/// format is the dynamic-fee one and the request gives one; else the gas
/// price. A fee that is given must be readable, whatever the format.
pub fn resolve_priority_fee(tx: &TxRequest, gas_price: U256) -> (out: Result<U256, HsmError>)
    ensures
        match out {
            Ok(fee) => !priority_fee_fault(*tx) && fee@ == resolved_priority_fee(
                tx.transaction_type,
                given_priority_fee(*tx),
                gas_price@,
            ),
            Err(e) => priority_fee_fault(*tx) && e == HsmError::NumericParse(Number::PriorityFee),
        },
{
    let given = match &tx.max_priority_fee_per_gas {
        Some(text) => match U256::from_dec_str(text.as_str()) {
            Some(fee) => Some(fee),
            None => {
                return Err(HsmError::NumericParse(Number::PriorityFee));
            },
        },
        None => None,
    };
    match tx.transaction_type {
        Some(tag) => if tag == EIP1559_TX_ID {
            match given {
                Some(fee) => Ok(fee),
                None => Ok(gas_price),
            }
        } else {
            Ok(gas_price)
        },
        None => Ok(gas_price),
    }
}

/// Builds the native transfer that a request asks for: the value goes to
/// the recipient, and there is no data.
pub fn build_native_transfer(request: &TxBroadcastRequest) -> (out: Result<
    TransactionParam,
    HsmError,
>)
    ensures
        match native_intent(*request) {
            Ok(intent) => out matches Ok(tx) && tx@ == intent,
            Err(e) => out matches Err(x) && x == e,
        },
{
    let (value, nonce, gas_price, gas) = match parse_numbers(&request.tx) {
        Ok(numbers) => numbers,
        Err(e) => {
            return Err(e);
        },
    };
    let to = match Address::from_str(request.tx.to.as_str()) {
        Some(address) => address,
        None => {
            return Err(HsmError::Decode(Malformed::Recipient));
        },
    };
    let fee = match resolve_priority_fee(&request.tx, gas_price) {
        Ok(fee) => fee,
        Err(e) => {
            return Err(e);
        },
    };
    let tx = TransactionParam {
        to: Some(to),
        nonce,
        gas,
        gas_price,
        value,
        data: Vec::new(),
        transaction_type: request.tx.transaction_type,
        access_list: Vec::new(),
        max_priority_fee_per_gas: fee,
    };
    proof {
        let intent = intent_of(request.tx, to@, decimal_value(request.tx.value@), Seq::empty());
        assert(tx@.access_list =~= intent.access_list);
        assert(tx@.data =~= intent.data);
    }
    Ok(tx)
}

/// Builds the token transfer that a request asks for: a call of `transfer`
/// on the token contract, with the recipient and the amount as arguments,
/// that sends no value.
pub fn build_token_transfer(request: &TxBroadcastRequest) -> (out: Result<
    TransactionParam,
    HsmError,
>)
    ensures
        match token_intent(*request) {
            Ok(intent) => out matches Ok(tx) && tx@ == intent,
            Err(e) => out matches Err(x) && x == e,
        },
        out matches Ok(tx) ==> tx@.data.len() == 68,
{
    let token_text = match &request.token_address {
        Some(text) => text,
        None => {
            return Err(HsmError::MissingField(Field::TokenAddress));
        },
    };
    let abi = match &request.abi {
        Some(text) => text,
        None => {
            return Err(HsmError::MissingField(Field::Abi));
        },
    };
    let token = match Address::from_str(token_text.as_str()) {
        Some(address) => address,
        None => {
            return Err(HsmError::Decode(Malformed::TokenAddress));
        },
    };
    let (amount, nonce, gas_price, gas) = match parse_numbers(&request.tx) {
        Ok(numbers) => numbers,
        Err(e) => {
            return Err(e);
        },
    };
    let to = match Address::from_str(request.tx.to.as_str()) {
        Some(address) => address,
        None => {
            return Err(HsmError::Decode(Malformed::Recipient));
        },
    };
    let fee = match resolve_priority_fee(&request.tx, gas_price) {
        Ok(fee) => fee,
        Err(e) => {
            return Err(e);
        },
    };
    let data = match abi_encode_call(abi.as_str(), "transfer", &to, &amount) {
        Some(bytes) => bytes,
        None => {
            return Err(HsmError::Decode(Malformed::Abi));
        },
    };
    let tx = TransactionParam {
        to: Some(token),
        nonce,
        gas,
        gas_price,
        value: U256::zero(),
        data,
        transaction_type: request.tx.transaction_type,
        access_list: Vec::new(),
        max_priority_fee_per_gas: fee,
    };
    proof {
        lemma_be_word_of_value(amount.bytes@);
        let selector = abi_selector(abi@, "transfer"@)->0;
        let intent = intent_of(
            request.tx,
            token@,
            0,
            transfer_call(selector, to@, decimal_value(request.tx.value@)),
        );
        assert(tx@.access_list =~= intent.access_list);
        assert(tx@.data =~= intent.data);
    }
    Ok(tx)
}

/// Signs a transaction that was built from a request, under a key and a
/// chain id that are given as text.
fn sign_built(tx: &TransactionParam, chain_text: &str, key_text: &str) -> (out: Result<
    SignRawTxFeild,
    HsmError,
>)
    requires
        tx@.data.len() <= 68,
        tx@.access_list.len() == 0,
        tx.to is Some,
    ensures
        match signed_field(tx@, chain_text@, key_text@) {
            Ok(view) => out matches Ok(field) && field@ == view,
            Err(e) => out matches Err(x) && x == e,
        },
        !(out matches Err(e) && e == HsmError::Oversize),
{
    let key = match parse_secret_key(key_text) {
        Some(key) => key,
        None => {
            return Err(HsmError::Decode(Malformed::SigningKey));
        },
    };
    let chain_id = match parse_u64(chain_text) {
        Some(id) => id,
        None => {
            return Err(HsmError::NumericParse(Number::ChainId));
        },
    };
    proof {
        lemma_be_value_fits(tx.nonce.bytes@);
        lemma_be_value_fits(tx.gas.bytes@);
        lemma_be_value_fits(tx.gas_price.bytes@);
        lemma_be_value_fits(tx.value.bytes@);
        lemma_be_value_fits(tx.max_priority_fee_per_gas.bytes@);
        lemma_plain_is_signable(tx@, chain_id);
        match format_of(tx.transaction_type) {
            Some(format) => {
                lemma_signable_encodable(tx@, format, chain_id, None);
                match ecdsa_signature(key@, signing_hash(tx@, format, chain_id)) {
                    Some(bare) => match chain_protected(format, chain_id, bare) {
                        Ok(signature) => {
                            lemma_signable_encodable(tx@, format, chain_id, Some(signature));
                        },
                        Err(_) => {},
                    },
                    None => {},
                }
            },
            None => {},
        }
    }
    let signed = match sign_raw(tx, &key, chain_id) {
        Ok(signed) => signed,
        Err(e) => {
            return Err(e);
        },
    };
    let packed = combined_sign_bytes(signed.v, signed.r, signed.s);
    let signature = vstd::slice::slice_to_vec(packed.as_slice());
    Ok(SignRawTxFeild { message: signed.message_hash, r_tx: signed.raw_transaction, signature })
}

/// Signs the native transfer that a request asks for.
pub fn sign_raw_tx(transaction: &TxBroadcastRequest, private_key: &str) -> (out: Result<
    SignRawTxFeild,
    HsmError,
>)
    ensures
        match native_signed(*transaction, private_key@) {
            Ok(view) => out matches Ok(field) && field@ == view,
            Err(e) => out matches Err(x) && x == e,
        },
        !(out matches Err(e) && e == HsmError::Oversize),
{
    let tx = match build_native_transfer(transaction) {
        Ok(tx) => tx,
        Err(e) => {
            return Err(e);
        },
    };
    sign_built(&tx, transaction.tx.chain_id.as_str(), private_key)
}

/// Signs the token transfer that a request asks for.
pub fn sign_erc20(transaction: &TxBroadcastRequest, private_key: &str) -> (out: Result<
    SignRawTxFeild,
    HsmError,
>)
    ensures
        match token_signed(*transaction, private_key@) {
            Ok(view) => out matches Ok(field) && field@ == view,
            Err(e) => out matches Err(x) && x == e,
        },
        !(out matches Err(e) && e == HsmError::Oversize),
{
    let tx = match build_token_transfer(transaction) {
        Ok(tx) => tx,
        Err(e) => {
            return Err(e);
        },
    };
    sign_built(&tx, transaction.tx.chain_id.as_str(), private_key)
}

} // verus!
