use hsm_signer::error::HsmError;
use hsm_signer::primitives::{Address, U256};
use hsm_signer::transaction::{
    encode, encode_access_list_payload, encode_eip1559_payload, encode_legacy,
    rlp_append_access_list, rlp_append_legacy, rlp_append_signature, select_format,
    AccessListItem, Signature, TransactionParam, TxFormat,
};
use rlp::RlpStream;

fn number(text: &str) -> U256 {
    U256::from_dec_str(text).expect("a decimal number")
}

fn address(byte: u8) -> Address {
    Address { bytes: [byte; 20] }
}

fn sample(data: Vec<u8>, transaction_type: Option<u64>) -> TransactionParam {
    TransactionParam {
        to: Some(address(0x35)),
        nonce: number("9"),
        gas: number("21000"),
        gas_price: number("20000000000"),
        value: number("1000000000000000000"),
        data,
        transaction_type,
        access_list: Vec::new(),
        max_priority_fee_per_gas: number("1500000000"),
    }
}

fn sample_signature() -> Signature {
    let mut r = [0u8; 32];
    let mut s = [0x11u8; 32];
    r[31] = 0x7f;
    s[0] = 0;
    Signature { v: 37, r, s }
}

fn wide(value: &U256) -> web3::types::U256 {
    web3::types::U256::from_big_endian(&value.bytes)
}

fn stream_fields(tx: &TransactionParam, stream: &mut RlpStream) {
    stream.append(&wide(&tx.nonce));
    stream.append(&wide(&tx.gas_price));
    stream.append(&wide(&tx.gas));
    match &tx.to {
        Some(to) => stream.append(&web3::types::H160(to.bytes)),
        None => stream.append(&""),
    };
    stream.append(&wide(&tx.value));
    stream.append(&tx.data);
}

fn stream_access_list(tx: &TransactionParam, stream: &mut RlpStream) {
    stream.begin_list(tx.access_list.len());
    for item in tx.access_list.iter() {
        stream.begin_list(2);
        stream.append(&web3::types::H160(item.address.bytes));
        stream.begin_list(item.storage_keys.len());
        for key in item.storage_keys.iter() {
            stream.append(&web3::types::H256(*key));
        }
    }
}

fn stream_signature(signature: &Signature, stream: &mut RlpStream) {
    stream.append(&signature.v);
    stream.append(&web3::types::U256::from_big_endian(&signature.r));
    stream.append(&web3::types::U256::from_big_endian(&signature.s));
}

fn streamed_legacy(tx: &TransactionParam, chain_id: u64, signature: Option<&Signature>) -> Vec<u8> {
    let mut stream = RlpStream::new();
    stream.begin_list(9);
    stream_fields(tx, &mut stream);
    match signature {
        Some(signature) => stream_signature(signature, &mut stream),
        None => {
            stream.append(&chain_id);
            stream.append(&0u8);
            stream.append(&0u8);
        }
    }
    stream.out().to_vec()
}

fn streamed_access_list(
    tx: &TransactionParam,
    chain_id: u64,
    signature: Option<&Signature>,
) -> Vec<u8> {
    let mut stream = RlpStream::new();
    stream.begin_list(if signature.is_some() { 11 } else { 8 });
    stream.append(&chain_id);
    stream_fields(tx, &mut stream);
    stream_access_list(tx, &mut stream);
    if let Some(signature) = signature {
        stream_signature(signature, &mut stream);
    }
    stream.out().to_vec()
}

fn streamed_dynamic_fee(
    tx: &TransactionParam,
    chain_id: u64,
    signature: Option<&Signature>,
) -> Vec<u8> {
    let mut stream = RlpStream::new();
    stream.begin_list(if signature.is_some() { 12 } else { 9 });
    stream.append(&chain_id);
    stream.append(&wide(&tx.nonce));
    stream.append(&wide(&tx.max_priority_fee_per_gas));
    stream.append(&wide(&tx.gas_price));
    stream.append(&wide(&tx.gas));
    match &tx.to {
        Some(to) => stream.append(&web3::types::H160(to.bytes)),
        None => stream.append(&""),
    };
    stream.append(&wide(&tx.value));
    stream.append(&tx.data);
    stream_access_list(tx, &mut stream);
    if let Some(signature) = signature {
        stream_signature(signature, &mut stream);
    }
    stream.out().to_vec()
}

fn access_list(entries: usize, keys: usize) -> Vec<AccessListItem> {
    let mut list = Vec::new();
    for i in 0..entries {
        let mut storage_keys = Vec::new();
        for j in 0..keys {
            let mut key = [0u8; 32];
            key[0] = i as u8;
            key[31] = j as u8;
            storage_keys.push(key);
        }
        list.push(AccessListItem { address: address(0xa0 + i as u8), storage_keys });
    }
    list
}

#[test]
fn legacy_unsigned_matches_the_replay_protection_example() {
    let tx = sample(Vec::new(), None);
    let encoded = encode(&tx, 1, None).expect("legacy");
    assert_eq!(
        hex::encode(&encoded),
        "ec098504a817c800825208943535353535353535353535353535353535353535880de0b6b3a764000080018080"
    );
}

#[test]
fn legacy_has_nine_items_and_no_type_byte() {
    let tx = sample(Vec::new(), None);
    let encoded = encode(&tx, 1, None).expect("legacy");
    assert!(encoded[0] >= 0xc0);
    assert_eq!(rlp::Rlp::new(&encoded).item_count().expect("a list"), 9);
    let signed = encode(&tx, 1, Some(sample_signature())).expect("legacy");
    assert!(signed[0] >= 0xc0);
    assert_eq!(rlp::Rlp::new(&signed).item_count().expect("a list"), 9);
}

#[test]
fn tag_zero_is_legacy_too() {
    let unset = encode(&sample(vec![1, 2, 3], None), 5, None).expect("legacy");
    let zero = encode(&sample(vec![1, 2, 3], Some(0)), 5, None).expect("legacy");
    assert_eq!(unset, zero);
}

#[test]
fn access_list_format_starts_with_one() {
    let tx = sample(Vec::new(), Some(1));
    let encoded = encode(&tx, 1, None).expect("access list");
    assert_eq!(encoded[0], 0x01);
    assert_eq!(encoded[1..].to_vec(), streamed_access_list(&tx, 1, None));
    assert_eq!(rlp::Rlp::new(&encoded[1..]).item_count().expect("a list"), 8);
    let signed = encode(&tx, 1, Some(sample_signature())).expect("access list");
    assert_eq!(signed[0], 0x01);
    assert_eq!(rlp::Rlp::new(&signed[1..]).item_count().expect("a list"), 11);
}

#[test]
fn dynamic_fee_format_starts_with_two() {
    let tx = sample(Vec::new(), Some(2));
    let encoded = encode(&tx, 1, None).expect("dynamic fee");
    assert_eq!(encoded[0], 0x02);
    assert_eq!(encoded[1..].to_vec(), streamed_dynamic_fee(&tx, 1, None));
    assert_eq!(rlp::Rlp::new(&encoded[1..]).item_count().expect("a list"), 9);
    let signed = encode(&tx, 1, Some(sample_signature())).expect("dynamic fee");
    assert_eq!(signed[0], 0x02);
    assert_eq!(rlp::Rlp::new(&signed[1..]).item_count().expect("a list"), 12);
}

#[test]
fn unknown_tag_is_refused() {
    let tx = sample(Vec::new(), Some(3));
    assert_eq!(encode(&tx, 1, None), Err(HsmError::UnsupportedFormat));
    assert_eq!(encode(&tx, 1, Some(sample_signature())), Err(HsmError::UnsupportedFormat));
    let far = sample(Vec::new(), Some(u64::MAX));
    assert_eq!(encode(&far, 1, None), Err(HsmError::UnsupportedFormat));
}

#[test]
fn select_format_reads_the_tag() {
    assert_eq!(select_format(None), Some(TxFormat::Legacy));
    assert_eq!(select_format(Some(0)), Some(TxFormat::Legacy));
    assert_eq!(select_format(Some(1)), Some(TxFormat::AccessList));
    assert_eq!(select_format(Some(2)), Some(TxFormat::DynamicFee));
    assert_eq!(select_format(Some(3)), None);
}

#[test]
fn every_format_agrees_with_a_stream_of_the_same_items() {
    let lengths = [0usize, 1, 2, 54, 55, 56, 57, 255, 256, 257, 65535, 65536, 70000];
    for length in lengths {
        let data: Vec<u8> = (0..length).map(|i| (i % 251) as u8).collect();
        for signature in [None, Some(sample_signature())] {
            for chain_id in [0u64, 1, 127, 128, 255, 256, 1337, u64::MAX] {
                let mut tx = sample(data.clone(), None);
                tx.access_list = access_list(2, 3);
                assert_eq!(
                    encode_legacy(&tx, chain_id, signature),
                    Some(streamed_legacy(&tx, chain_id, signature.as_ref()))
                );
                assert_eq!(
                    encode_access_list_payload(&tx, chain_id, signature),
                    Some(streamed_access_list(&tx, chain_id, signature.as_ref()))
                );
                assert_eq!(
                    encode_eip1559_payload(&tx, chain_id, signature),
                    Some(streamed_dynamic_fee(&tx, chain_id, signature.as_ref()))
                );
            }
        }
    }
}

#[test]
fn single_bytes_stand_for_themselves_below_0x80() {
    for byte in [0u8, 1, 0x7f, 0x80, 0x81, 0xff] {
        let tx = sample(vec![byte], None);
        assert_eq!(encode_legacy(&tx, 1, None), Some(streamed_legacy(&tx, 1, None)));
    }
    let low = encode_legacy(&sample(vec![0x7f], None), 1, None).expect("fits");
    let high = encode_legacy(&sample(vec![0x80], None), 1, None).expect("fits");
    assert_eq!(low.len() + 1, high.len());
}

#[test]
fn access_lists_of_many_shapes_agree_with_a_stream() {
    for entries in [0usize, 1, 2, 7] {
        for keys in [0usize, 1, 2, 9] {
            let mut tx = sample(vec![0xde, 0xad], Some(1));
            tx.access_list = access_list(entries, keys);
            assert_eq!(
                encode_access_list_payload(&tx, 10, None),
                Some(streamed_access_list(&tx, 10, None))
            );
            assert_eq!(
                encode_eip1559_payload(&tx, 10, Some(sample_signature())),
                Some(streamed_dynamic_fee(&tx, 10, Some(&sample_signature())))
            );
        }
    }
}

#[test]
fn appends_say_whether_they_fit() {
    let tx = sample(vec![1, 2, 3], Some(1));
    let mut stream = vec![0xeeu8];
    assert!(rlp_append_legacy(&tx, &mut stream));
    assert_eq!(stream[0], 0xee);
    assert_eq!(stream[1], 0x09);
    let before = stream.len();
    assert!(rlp_append_access_list(&tx, &mut stream));
    assert_eq!(stream[before..], [0xc0u8]);
    rlp_append_signature(&mut stream, &sample_signature());
    assert_eq!(stream[before + 1..before + 3], [37u8, 0x7f]);
    assert_eq!(stream[before + 3], 0x80 + 31);
    assert_eq!(stream.len(), before + 3 + 32);
}

#[test]
fn empty_access_list_is_the_empty_list() {
    let tx = sample(Vec::new(), Some(1));
    let encoded = encode(&tx, 1, None).expect("access list");
    assert_eq!(*encoded.last().expect("bytes"), 0xc0);
}

#[test]
fn absent_recipient_is_the_empty_string() {
    let mut tx = sample(Vec::new(), None);
    tx.to = None;
    let encoded = encode(&tx, 1, None).expect("legacy");
    assert_eq!(
        hex::encode(&encoded),
        "d8098504a817c80082520880880de0b6b3a764000080018080"
    );
    assert_eq!(encoded, streamed_legacy(&tx, 1, None));
}

#[test]
fn integers_lose_their_leading_zeros() {
    let mut tx = sample(Vec::new(), None);
    tx.nonce = U256::zero();
    tx.value = number("0");
    tx.gas = number("127");
    tx.gas_price = number("128");
    let encoded = encode(&tx, 0, None).expect("legacy");
    assert_eq!(
        hex::encode(&encoded),
        "de8081807f9435353535353535353535353535353535353535358080808080"
    );
}

#[test]
fn signed_and_unsigned_share_all_but_the_trailing_items() {
    for tag in [None, Some(1u64), Some(2u64)] {
        let mut tx = sample(vec![7u8; 300], tag);
        tx.access_list = access_list(3, 2);
        let unsigned = encode(&tx, 5, None).expect("unsigned");
        let signed = encode(&tx, 5, Some(sample_signature())).expect("signed");
        let skip = if tag.is_none() { 0 } else { 1 };
        let plain = rlp::Rlp::new(&unsigned[skip..]);
        let closed = rlp::Rlp::new(&signed[skip..]);
        let shared = if tag.is_none() { 6 } else if tag == Some(1) { 8 } else { 9 };
        for index in 0..shared {
            assert_eq!(
                plain.at(index).expect("item").as_raw(),
                closed.at(index).expect("item").as_raw()
            );
        }
        assert_eq!(closed.item_count().expect("a list"), shared + 3);
        assert_eq!(closed.at(shared).expect("v").as_raw(), &[37u8][..]);
        assert_eq!(closed.at(shared + 1).expect("r").as_raw(), &[0x7fu8][..]);
        assert_eq!(closed.at(shared + 2).expect("s").as_raw()[0], 0x80 + 31);
    }
}
