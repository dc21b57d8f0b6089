//! Transactions and their wire encodings.
//!
//! A transaction is encoded as a list of its fields, in one of three formats:
//! the legacy one, which has no type byte, and the access-list and
//! dynamic-fee ones, which put a type byte in front of the list. The same
//! encoder serves the signing hash, where the signature is absent, and the
//! final transaction, where it closes the list.

use vstd::prelude::*;
use crate::error::HsmError;
use crate::primitives::{be_value, fits_in_bytes, lemma_be_bytes_len, Address, U256};
use crate::rlp::{
    encode_bytes, encode_list, encode_u256, encode_u64, rlp_list, rlp_string, rlp_uint,
    MAX_PAYLOAD,
};

verus! {

/// The tag of the legacy format.
pub const LEGACY_TX_ID: u64 = 0;

/// The tag of the access-list format.
pub const ACCESSLISTS_TX_ID: u64 = 1;

/// The tag of the dynamic-fee format.
pub const EIP1559_TX_ID: u64 = 2;

/// The three wire formats.
#[derive(Clone, Copy, Debug, PartialEq, Eq, Structural)]
pub enum TxFormat {
    Legacy,
    AccessList,
    DynamicFee,
}

/// An address with the storage slots that a transaction declares it will touch.
#[derive(Clone, Debug)]
pub struct AccessListItem {
    pub address: Address,
    pub storage_keys: Vec<[u8; 32]>,
}

/// What is to be signed: a transfer of value or a contract call.
#[derive(Clone, Debug)]
pub struct TransactionParam {
    /// The recipient; absent when a contract is created.
    pub to: Option<Address>,
    pub nonce: U256,
    pub gas: U256,
    /// The gas price; in the dynamic-fee format, the fee cap.
    pub gas_price: U256,
    pub value: U256,
    pub data: Vec<u8>,
    /// The format tag; absent means legacy.
    pub transaction_type: Option<u64>,
    pub access_list: Vec<AccessListItem>,
    /// Read in the dynamic-fee format only.
    pub max_priority_fee_per_gas: U256,
}

/// An entry of an access list as mathematics sees it.
pub struct AccessEntry {
    pub address: Seq<u8>,
    pub storage_keys: Seq<Seq<u8>>,
}

/// A transaction as mathematics sees it: numbers and byte strings.
pub struct Intent {
    pub to: Option<Seq<u8>>,
    pub nonce: nat,
    pub gas: nat,
    pub gas_price: nat,
    pub value: nat,
    pub data: Seq<u8>,
    pub transaction_type: Option<u64>,
    pub access_list: Seq<AccessEntry>,
    pub max_priority_fee_per_gas: nat,
}

/// The bytes of a recipient, if there is one.
pub open spec fn recipient_view(to: Option<Address>) -> Option<Seq<u8>> {
    match to {
        Some(address) => Some(address@),
        None => None,
    }
}

impl View for AccessListItem {
    type V = AccessEntry;

    open spec fn view(&self) -> AccessEntry {
        AccessEntry {
            address: self.address@,
            storage_keys: self.storage_keys@.map_values(|key: [u8; 32]| key@),
        }
    }
}

impl View for TransactionParam {
    type V = Intent;

    open spec fn view(&self) -> Intent {
        Intent {
            to: recipient_view(self.to),
            nonce: self.nonce@,
            gas: self.gas@,
            gas_price: self.gas_price@,
            value: self.value@,
            data: self.data@,
            transaction_type: self.transaction_type,
            access_list: self.access_list@.map_values(|item: AccessListItem| item@),
            max_priority_fee_per_gas: self.max_priority_fee_per_gas@,
        }
    }
}

/// The three components of a signature.
#[derive(Clone, Copy, Debug)]
pub struct Signature {
    pub v: u64,
    pub r: [u8; 32],
    pub s: [u8; 32],
}

/// The format that a tag selects: none or 0 the legacy one, 1 the
/// access-list one, 2 the dynamic-fee one; any other tag selects nothing.
pub open spec fn format_of(tag: Option<u64>) -> Option<TxFormat> {
    match tag {
        None => Some(TxFormat::Legacy),
        Some(t) => if t == LEGACY_TX_ID {
            Some(TxFormat::Legacy)
        } else if t == ACCESSLISTS_TX_ID {
            Some(TxFormat::AccessList)
        } else if t == EIP1559_TX_ID {
            Some(TxFormat::DynamicFee)
        } else {
            None
        },
    }
}

/// The byte in front of the list: none for the legacy format.
pub open spec fn type_prefix(format: TxFormat) -> Seq<u8> {
    match format {
        TxFormat::Legacy => Seq::empty(),
        TxFormat::AccessList => seq![1u8],
        TxFormat::DynamicFee => seq![2u8],
    }
}

/// The recipient as an item: its 20 bytes, or the empty string when absent.
pub open spec fn recipient_item(to: Option<Seq<u8>>) -> Seq<u8> {
    match to {
        Some(address) => rlp_string(address),
        None => rlp_string(Seq::empty()),
    }
}

/// The six items that every format carries, in legacy order:
/// nonce, gas price, gas, recipient, value, data.
pub open spec fn legacy_fields(tx: Intent) -> Seq<u8> {
    rlp_uint(tx.nonce) + rlp_uint(tx.gas_price) + rlp_uint(tx.gas) + recipient_item(tx.to)
        + rlp_uint(tx.value) + rlp_string(tx.data)
}

/// The items of the dynamic-fee format between chain id and access list:
/// nonce, priority fee, fee cap, gas, recipient, value, data.
pub open spec fn dynamic_fee_fields(tx: Intent) -> Seq<u8> {
    rlp_uint(tx.nonce) + rlp_uint(tx.max_priority_fee_per_gas) + rlp_uint(tx.gas_price)
        + rlp_uint(tx.gas) + recipient_item(tx.to) + rlp_uint(tx.value) + rlp_string(tx.data)
}

/// Storage keys as items, one 32-byte string each.
pub open spec fn storage_key_items(keys: Seq<Seq<u8>>) -> Seq<u8>
    decreases keys.len(),
{
    if keys.len() == 0 {
        Seq::empty()
    } else {
        storage_key_items(keys.drop_last()) + rlp_string(keys.last())
    }
}

/// One entry of an access list: the pair of an address and the list of its keys.
pub open spec fn access_entry(item: AccessEntry) -> Seq<u8> {
    rlp_list(rlp_string(item.address) + rlp_list(storage_key_items(item.storage_keys)))
}

/// The entries of an access list, one after the other.
pub open spec fn access_entries(items: Seq<AccessEntry>) -> Seq<u8>
    decreases items.len(),
{
    if items.len() == 0 {
        Seq::empty()
    } else {
        access_entries(items.drop_last()) + access_entry(items.last())
    }
}

/// The access list as one item.
pub open spec fn access_list_item(items: Seq<AccessEntry>) -> Seq<u8> {
    rlp_list(access_entries(items))
}

/// A signature as three items: v, then r and s as integers.
pub open spec fn signature_fields(signature: Signature) -> Seq<u8> {
    rlp_uint(signature.v as nat) + rlp_uint(be_value(signature.r@)) + rlp_uint(
        be_value(signature.s@),
    )
}

/// The items that signed and unsigned encodings of a transaction share.
pub open spec fn body_fields(tx: Intent, format: TxFormat, chain_id: u64) -> Seq<u8> {
    match format {
        TxFormat::Legacy => legacy_fields(tx),
        TxFormat::AccessList => rlp_uint(chain_id as nat) + legacy_fields(tx) + access_list_item(
            tx.access_list,
        ),
        TxFormat::DynamicFee => rlp_uint(chain_id as nat) + dynamic_fee_fields(tx)
            + access_list_item(tx.access_list),
    }
}

/// The items that close the list. With a signature they are v, r and s. Without
/// one the legacy format has the chain id and two zeros in their place, and the
/// typed formats have nothing.
pub open spec fn trailing_fields(
    format: TxFormat,
    chain_id: u64,
    signature: Option<Signature>,
) -> Seq<u8> {
    match signature {
        Some(s) => signature_fields(s),
        None => match format {
            TxFormat::Legacy => rlp_uint(chain_id as nat) + rlp_uint(0) + rlp_uint(0),
            _ => Seq::empty(),
        },
    }
}

/// All items of the list.
pub open spec fn payload(
    tx: Intent,
    format: TxFormat,
    chain_id: u64,
    signature: Option<Signature>,
) -> Seq<u8> {
    body_fields(tx, format, chain_id) + trailing_fields(format, chain_id, signature)
}

/// The encoding of a transaction in a format: the type byte, if the format
/// has one, and the list of all items.
pub open spec fn encoding(
    tx: Intent,
    format: TxFormat,
    chain_id: u64,
    signature: Option<Signature>,
) -> Seq<u8> {
    type_prefix(format) + rlp_list(payload(tx, format, chain_id, signature))
}

/// The number of items in the list.
pub open spec fn item_count(format: TxFormat, signature: Option<Signature>) -> nat {
    match format {
        TxFormat::Legacy => 9,
        TxFormat::AccessList => if signature is Some { 11 } else { 8 },
        TxFormat::DynamicFee => if signature is Some { 12 } else { 9 },
    }
}

/// Whether the items of the list are no longer than a list header can say.
pub open spec fn encodable(
    tx: Intent,
    format: TxFormat,
    chain_id: u64,
    signature: Option<Signature>,
) -> bool {
    payload(tx, format, chain_id, signature).len() <= MAX_PAYLOAD
}

/// The format that a tag selects, or `None` for an unknown tag.
pub fn select_format(tag: Option<u64>) -> (format: Option<TxFormat>)
    ensures
        format == format_of(tag),
{
    match tag {
        None => Some(TxFormat::Legacy),
        Some(t) => if t == LEGACY_TX_ID {
            Some(TxFormat::Legacy)
        } else if t == ACCESSLISTS_TX_ID {
            Some(TxFormat::AccessList)
        } else if t == EIP1559_TX_ID {
            Some(TxFormat::DynamicFee)
        } else {
            None
        },
    }
}

/// A byte string is never longer than its encoding.
pub proof fn lemma_string_len(data: Seq<u8>)
    ensures
        data.len() <= rlp_string(data).len(),
{
}

/// A payload is never longer than the list that holds it.
pub proof fn lemma_list_len(items: Seq<u8>)
    ensures
        items.len() <= rlp_list(items).len(),
{
}

/// The entries of the first `n` items are a prefix of the entries of all.
pub proof fn lemma_access_entries_prefix(items: Seq<AccessEntry>, n: int)
    requires
        0 <= n <= items.len(),
    ensures
        access_entries(items.take(n)).len() <= access_entries(items).len(),
    decreases items.len(),
{
    if n == items.len() {
        assert(items.take(n) =~= items);
    } else {
        lemma_access_entries_prefix(items.drop_last(), n);
        assert(items.drop_last().take(n) =~= items.take(n));
    }
}

/// The data and, in the typed formats, the access list are parts of the payload.
pub proof fn lemma_parts_of_payload(
    tx: Intent,
    format: TxFormat,
    chain_id: u64,
    signature: Option<Signature>,
)
    ensures
        rlp_string(tx.data).len() <= payload(tx, format, chain_id, signature).len(),
        format != TxFormat::Legacy ==> access_list_item(tx.access_list).len() <= payload(
            tx,
            format,
            chain_id,
            signature,
        ).len(),
{
    let data = rlp_string(tx.data);
    let list = access_list_item(tx.access_list);
    let body = body_fields(tx, format, chain_id);
    assert(body.len() <= payload(tx, format, chain_id, signature).len());
    assert(data.len() <= legacy_fields(tx).len());
    assert(data.len() <= dynamic_fee_fields(tx).len());
    match format {
        TxFormat::Legacy => {},
        TxFormat::AccessList => {
            assert(body.len() == rlp_uint(chain_id as nat).len() + legacy_fields(tx).len()
                + list.len());
        },
        TxFormat::DynamicFee => {
            assert(body.len() == rlp_uint(chain_id as nat).len() + dynamic_fee_fields(tx).len()
                + list.len());
        },
    }
}

/// Appends an unsigned integer as an item.
fn append_uint(stream: &mut Vec<u8>, value: &U256)
    ensures
        final(stream)@ == old(stream)@ + rlp_uint(value@),
{
    let mut item = encode_u256(value);
    stream.append(&mut item);
}

/// Appends a byte string as an item, unless it is longer than a header can say.
fn append_string(stream: &mut Vec<u8>, data: &[u8]) -> (fits: bool)
    ensures
        fits == (data@.len() <= MAX_PAYLOAD),
        fits ==> final(stream)@ == old(stream)@ + rlp_string(data@),
{
    if data.len() > MAX_PAYLOAD {
        return false;
    }
    let mut item = encode_bytes(data);
    stream.append(&mut item);
    true
}

/// Puts a list header in front of `count` encoded items, unless they are
/// longer than a header can say.
fn frame_list(items: &Vec<u8>, count: usize) -> (out: Option<Vec<u8>>)
    requires
        count == 0 ==> items@.len() == 0,
    ensures
        match out {
            Some(list) => items@.len() <= MAX_PAYLOAD && list@ == rlp_list(items@),
            None => items@.len() > MAX_PAYLOAD,
        },
{
    if items.len() > MAX_PAYLOAD {
        return None;
    }
    Some(encode_list(items.as_slice(), count))
}

/// Appends the recipient as an item; an absent one as the empty string.
fn append_recipient(stream: &mut Vec<u8>, to: &Option<Address>)
    ensures
        final(stream)@ == old(stream)@ + recipient_item(recipient_view(*to)),
{
    let mut item = match to {
        Some(address) => encode_bytes(address.bytes.as_slice()),
        None => {
            let empty: Vec<u8> = Vec::new();
            encode_bytes(empty.as_slice())
        },
    };
    stream.append(&mut item);
}

/// Appends the six items that every format carries: nonce, gas price, gas,
/// recipient, value, data. Says whether the data could be framed; where it
/// could not, the stream is of no use.
pub fn rlp_append_legacy(tx: &TransactionParam, stream: &mut Vec<u8>) -> (fits: bool)
    ensures
        fits == (tx@.data.len() <= MAX_PAYLOAD),
        fits ==> final(stream)@ == old(stream)@ + legacy_fields(tx@),
{
    append_uint(stream, &tx.nonce);
    append_uint(stream, &tx.gas_price);
    append_uint(stream, &tx.gas);
    append_recipient(stream, &tx.to);
    append_uint(stream, &tx.value);
    let fits = append_string(stream, tx.data.as_slice());
    assert(fits ==> stream@ =~= old(stream)@ + legacy_fields(tx@));
    fits
}

/// Appends a signature as three items: v, then r and s as integers.
pub fn rlp_append_signature(stream: &mut Vec<u8>, signature: &Signature)
    ensures
        final(stream)@ == old(stream)@ + signature_fields(*signature),
{
    let mut v = encode_u64(signature.v);
    stream.append(&mut v);
    append_uint(stream, &U256 { bytes: signature.r });
    append_uint(stream, &U256 { bytes: signature.s });
    assert(stream@ =~= old(stream)@ + signature_fields(*signature));
}

/// Encodes one entry of an access list, unless it is longer than a header can say.
fn encode_access_entry(item: &AccessListItem) -> (out: Option<Vec<u8>>)
    ensures
        match out {
            Some(entry) => entry@ == access_entry(item@),
            None => access_entry(item@).len() > MAX_PAYLOAD,
        },
{
    let count = item.storage_keys.len();
    let mut keys: Vec<u8> = Vec::new();
    let mut j: usize = 0;
    while j < count
        invariant
            count == item.storage_keys@.len(),
            j <= count,
            keys@ == storage_key_items(item@.storage_keys.take(j as int)),
            j == 0 ==> keys@.len() == 0,
        decreases count - j,
    {
        let mut key = encode_bytes(item.storage_keys[j].as_slice());
        keys.append(&mut key);
        proof {
            let next = item@.storage_keys.take(j + 1);
            assert(next.drop_last() =~= item@.storage_keys.take(j as int));
            assert(next.last() == item.storage_keys@[j as int]@);
        }
        j += 1;
    }
    assert(item@.storage_keys.take(count as int) =~= item@.storage_keys);
    proof {
        lemma_list_len(keys@);
        lemma_list_len(rlp_string(item@.address) + rlp_list(keys@));
    }
    let mut pair = encode_bytes(item.address.bytes.as_slice());
    let mut key_list = match frame_list(&keys, count) {
        Some(list) => list,
        None => {
            return None;
        },
    };
    pair.append(&mut key_list);
    frame_list(&pair, 2)
}

/// Appends the access list as one item: a list with one entry for each
/// address, each entry the pair of the address and the list of its keys.
/// Says whether the list could be framed; where it could not, the stream is
/// of no use.
pub fn rlp_append_access_list(tx: &TransactionParam, stream: &mut Vec<u8>) -> (fits: bool)
    ensures
        fits == (access_entries(tx@.access_list).len() <= MAX_PAYLOAD),
        fits ==> final(stream)@ == old(stream)@ + access_list_item(tx@.access_list),
{
    let count = tx.access_list.len();
    let mut entries: Vec<u8> = Vec::new();
    let mut i: usize = 0;
    proof {
        lemma_list_len(access_entries(tx@.access_list));
    }
    while i < count
        invariant
            count == tx.access_list@.len(),
            i <= count,
            entries@ == access_entries(tx@.access_list.take(i as int)),
            i == 0 ==> entries@.len() == 0,
        decreases count - i,
    {
        proof {
            let next = tx@.access_list.take(i + 1);
            assert(next.drop_last() =~= tx@.access_list.take(i as int));
            assert(next.last() == tx.access_list@[i as int]@);
            lemma_access_entries_prefix(tx@.access_list, i + 1);
        }
        let mut entry = match encode_access_entry(&tx.access_list[i]) {
            Some(entry) => entry,
            None => {
                return false;
            },
        };
        entries.append(&mut entry);
        i += 1;
    }
    assert(tx@.access_list.take(count as int) =~= tx@.access_list);
    match frame_list(&entries, count) {
        Some(mut list) => {
            stream.append(&mut list);
            true
        },
        None => false,
    }
}

/// Appends what closes the list: the signature, or what the format puts in its place.
fn append_trailing(
    stream: &mut Vec<u8>,
    format: TxFormat,
    chain_id: u64,
    signature: Option<Signature>,
)
    ensures
        final(stream)@ == old(stream)@ + trailing_fields(format, chain_id, signature),
{
    match signature {
        Some(s) => {
            rlp_append_signature(stream, &s);
        },
        None => {
            match format {
                TxFormat::Legacy => {
                    let mut chain = encode_u64(chain_id);
                    stream.append(&mut chain);
                    let mut zero = encode_u64(0);
                    stream.append(&mut zero);
                    let mut zero = encode_u64(0);
                    stream.append(&mut zero);
                    assert(stream@ =~= old(stream)@ + (rlp_uint(chain_id as nat) + rlp_uint(0)
                        + rlp_uint(0)));
                },
                _ => {
                    assert(stream@ =~= old(stream)@ + Seq::<u8>::empty());
                },
            }
        },
    }
}

/// The number of items in the list, as the encoder counts them.
fn count_items(format: TxFormat, signature: Option<Signature>) -> (count: usize)
    ensures
        count == item_count(format, signature),
{
    match format {
        TxFormat::Legacy => 9,
        TxFormat::AccessList => if signature.is_some() {
            11
        } else {
            8
        },
        TxFormat::DynamicFee => if signature.is_some() {
            12
        } else {
            9
        },
    }
}

/// The legacy encoding: the list of nine items. The last three are the
/// signature or, without one, the chain id and two zeros. There is none
/// where the items are longer than a list header can say.
pub fn encode_legacy(tx: &TransactionParam, chain_id: u64, signature: Option<Signature>) -> (out:
    Option<Vec<u8>>)
    ensures
        match out {
            Some(list) => encodable(tx@, TxFormat::Legacy, chain_id, signature) && list@
                == rlp_list(payload(tx@, TxFormat::Legacy, chain_id, signature)),
            None => !encodable(tx@, TxFormat::Legacy, chain_id, signature),
        },
{
    proof {
        lemma_parts_of_payload(tx@, TxFormat::Legacy, chain_id, signature);
        lemma_string_len(tx@.data);
    }
    let mut stream: Vec<u8> = Vec::new();
    if !rlp_append_legacy(tx, &mut stream) {
        return None;
    }
    append_trailing(&mut stream, TxFormat::Legacy, chain_id, signature);
    assert(stream@ =~= payload(tx@, TxFormat::Legacy, chain_id, signature));
    frame_list(&stream, count_items(TxFormat::Legacy, signature))
}

/// The list of the access-list format, without its type byte: chain id, the
/// six legacy items, the access list and, if given, the signature. There is
/// none where the items are longer than a list header can say.
pub fn encode_access_list_payload(
    tx: &TransactionParam,
    chain_id: u64,
    signature: Option<Signature>,
) -> (out: Option<Vec<u8>>)
    ensures
        match out {
            Some(list) => encodable(tx@, TxFormat::AccessList, chain_id, signature) && list@
                == rlp_list(payload(tx@, TxFormat::AccessList, chain_id, signature)),
            None => !encodable(tx@, TxFormat::AccessList, chain_id, signature),
        },
{
    proof {
        lemma_parts_of_payload(tx@, TxFormat::AccessList, chain_id, signature);
        lemma_string_len(tx@.data);
    }
    let mut stream: Vec<u8> = encode_u64(chain_id);
    if !rlp_append_legacy(tx, &mut stream) {
        return None;
    }
    if !rlp_append_access_list(tx, &mut stream) {
        return None;
    }
    append_trailing(&mut stream, TxFormat::AccessList, chain_id, signature);
    assert(stream@ =~= payload(tx@, TxFormat::AccessList, chain_id, signature));
    frame_list(&stream, count_items(TxFormat::AccessList, signature))
}

/// Appends the items of the dynamic-fee format between chain id and access
/// list: nonce, priority fee, fee cap, gas, recipient, value, data.
fn append_dynamic_fee_fields(tx: &TransactionParam, stream: &mut Vec<u8>) -> (fits: bool)
    ensures
        fits == (tx@.data.len() <= MAX_PAYLOAD),
        fits ==> final(stream)@ == old(stream)@ + dynamic_fee_fields(tx@),
{
    append_uint(stream, &tx.nonce);
    append_uint(stream, &tx.max_priority_fee_per_gas);
    append_uint(stream, &tx.gas_price);
    append_uint(stream, &tx.gas);
    append_recipient(stream, &tx.to);
    append_uint(stream, &tx.value);
    let ghost head = stream@;
    let fits = append_string(stream, tx.data.as_slice());
    proof {
        if fits {
            let numbers = rlp_uint(tx@.nonce) + rlp_uint(tx@.max_priority_fee_per_gas) + rlp_uint(
                tx@.gas_price,
            ) + rlp_uint(tx@.gas) + recipient_item(tx@.to) + rlp_uint(tx@.value);
            assert(head =~= old(stream)@ + numbers);
            assert(stream@ =~= old(stream)@ + (numbers + rlp_string(tx@.data)));
        }
    }
    fits
}

/// The list of the dynamic-fee format, without its type byte: chain id,
/// nonce, priority fee, fee cap, gas, recipient, value, data, the access list
/// and, if given, the signature. There is none where the items are longer
/// than a list header can say.
pub fn encode_eip1559_payload(
    tx: &TransactionParam,
    chain_id: u64,
    signature: Option<Signature>,
) -> (out: Option<Vec<u8>>)
    ensures
        match out {
            Some(list) => encodable(tx@, TxFormat::DynamicFee, chain_id, signature) && list@
                == rlp_list(payload(tx@, TxFormat::DynamicFee, chain_id, signature)),
            None => !encodable(tx@, TxFormat::DynamicFee, chain_id, signature),
        },
{
    proof {
        lemma_parts_of_payload(tx@, TxFormat::DynamicFee, chain_id, signature);
        lemma_string_len(tx@.data);
    }
    let mut stream: Vec<u8> = encode_u64(chain_id);
    if !append_dynamic_fee_fields(tx, &mut stream) {
        return None;
    }
    if !rlp_append_access_list(tx, &mut stream) {
        return None;
    }
    append_trailing(&mut stream, TxFormat::DynamicFee, chain_id, signature);
    assert(stream@ =~= payload(tx@, TxFormat::DynamicFee, chain_id, signature));
    frame_list(&stream, count_items(TxFormat::DynamicFee, signature))
}

/// What encoding a transaction yields: its encoding in the format that its
/// tag selects, or the refusal of an unknown tag, or of items longer than a
/// list header can say.
pub open spec fn encoded(tx: Intent, chain_id: u64, signature: Option<Signature>) -> Result<
    Seq<u8>,
    HsmError,
> {
    match format_of(tx.transaction_type) {
        None => Err(HsmError::UnsupportedFormat),
        Some(format) => if encodable(tx, format, chain_id, signature) {
            Ok(encoding(tx, format, chain_id, signature))
        } else {
            Err(HsmError::Oversize)
        },
    }
}

/// Encodes a transaction, unsigned when `signature` is absent, in the format
/// that its tag selects.
pub fn encode(tx: &TransactionParam, chain_id: u64, signature: Option<Signature>) -> (out: Result<
    Vec<u8>,
    HsmError,
>)
    ensures
        match encoded(tx@, chain_id, signature) {
            Ok(bytes) => out matches Ok(v) && v@ == bytes,
            Err(e) => out matches Err(x) && x == e,
        },
{
    match select_format(tx.transaction_type) {
        Some(TxFormat::Legacy) => {
            match encode_legacy(tx, chain_id, signature) {
                Some(out) => {
                    assert(out@ =~= encoding(tx@, TxFormat::Legacy, chain_id, signature));
                    Ok(out)
                },
                None => Err(HsmError::Oversize),
            }
        },
        Some(TxFormat::AccessList) => {
            match encode_access_list_payload(tx, chain_id, signature) {
                Some(mut list) => {
                    let mut out: Vec<u8> = Vec::new();
                    out.push(ACCESSLISTS_TX_ID as u8);
                    out.append(&mut list);
                    assert(out@ =~= encoding(tx@, TxFormat::AccessList, chain_id, signature));
                    Ok(out)
                },
                None => Err(HsmError::Oversize),
            }
        },
        Some(TxFormat::DynamicFee) => {
            match encode_eip1559_payload(tx, chain_id, signature) {
                Some(mut list) => {
                    let mut out: Vec<u8> = Vec::new();
                    out.push(EIP1559_TX_ID as u8);
                    out.append(&mut list);
                    assert(out@ =~= encoding(tx@, TxFormat::DynamicFee, chain_id, signature));
                    Ok(out)
                },
                None => Err(HsmError::Oversize),
            }
        },
        None => Err(HsmError::UnsupportedFormat),
    }
}

/// The first byte of a list that fits under the limit is a list header: at least 0xc0.
pub proof fn lemma_list_first_byte(items: Seq<u8>)
    requires
        items.len() <= MAX_PAYLOAD,
    ensures
        rlp_list(items).len() > 0,
        rlp_list(items)[0] >= 0xc0,
{
    if items.len() > 55 {
        assert(fits_in_bytes(items.len(), 4)) by {
            reveal_with_fuel(fits_in_bytes, 5);
        }
        lemma_be_bytes_len(items.len(), 4);
    }
}

/// The format alone decides how an encoding begins. A typed format begins
/// with its type byte, 1 for access-list and 2 for dynamic-fee, and the list
/// follows. The legacy format begins with the list itself, whose first byte
/// is a list header and so can be mistaken for neither type byte.
pub proof fn lemma_format_decides_prefix(
    tx: Intent,
    format: TxFormat,
    chain_id: u64,
    signature: Option<Signature>,
)
    requires
        encodable(tx, format, chain_id, signature),
    ensures
        encoding(tx, format, chain_id, signature).len() > 0,
        format == TxFormat::Legacy ==> encoding(tx, format, chain_id, signature)[0] >= 0xc0,
        format == TxFormat::AccessList ==> encoding(tx, format, chain_id, signature)[0] == 1,
        format == TxFormat::DynamicFee ==> encoding(tx, format, chain_id, signature)[0] == 2,
        format != TxFormat::Legacy ==> encoding(tx, format, chain_id, signature).subrange(
            1,
            encoding(tx, format, chain_id, signature).len() as int,
        ) == rlp_list(payload(tx, format, chain_id, signature)),
{
    let list = rlp_list(payload(tx, format, chain_id, signature));
    lemma_list_first_byte(payload(tx, format, chain_id, signature));
    match format {
        TxFormat::Legacy => {
            assert(encoding(tx, format, chain_id, signature) =~= list);
        },
        _ => {
            let whole = encoding(tx, format, chain_id, signature);
            assert(whole.subrange(1, whole.len() as int) =~= list);
        },
    }
}

/// The signed and the unsigned encoding of a transaction differ in their
/// trailing items only. Both lists begin with the same items in the same
/// bytes; what follows is the signature in the one and, in the other, the
/// chain id and two zeros (legacy) or nothing (typed formats).
pub proof fn lemma_signature_is_trailing(
    tx: Intent,
    format: TxFormat,
    chain_id: u64,
    signature: Signature,
)
    ensures
        ({
            let shared = body_fields(tx, format, chain_id);
            let unsigned = payload(tx, format, chain_id, None);
            let signed = payload(tx, format, chain_id, Some(signature));
            &&& shared.len() <= unsigned.len()
            &&& shared.len() <= signed.len()
            &&& unsigned.subrange(0, shared.len() as int) == shared
            &&& signed.subrange(0, shared.len() as int) == shared
            &&& signed.subrange(shared.len() as int, signed.len() as int) == signature_fields(
                signature,
            )
            &&& unsigned.subrange(shared.len() as int, unsigned.len() as int) == trailing_fields(
                format,
                chain_id,
                None,
            )
        }),
{
    let shared = body_fields(tx, format, chain_id);
    let unsigned = payload(tx, format, chain_id, None);
    let signed = payload(tx, format, chain_id, Some(signature));
    assert(unsigned.subrange(0, shared.len() as int) =~= shared);
    assert(signed.subrange(0, shared.len() as int) =~= shared);
    assert(signed.subrange(shared.len() as int, signed.len() as int) =~= signature_fields(
        signature,
    ));
    assert(unsigned.subrange(shared.len() as int, unsigned.len() as int) =~= trailing_fields(
        format,
        chain_id,
        None,
    ));
}

} // verus!
