//! Encoding and decoding of Midl transactions, on bytes that were computed elsewhere.

use midl_escalator::midl::{
    is_zero_bytes, zero_public_key, MidlTransactionRequest, MIDL_DEFAULT_GAS_LIMIT,
    PUBLIC_KEY_LENGTH,
};
use midl_escalator::midl_request::Transaction;
use midl_escalator::midl_signed::MidlRequestError;
use midl_escalator::primitives::{Address, Bytes, H256, U256};
use midl_escalator::signature::{normalize_recovery_id, normalize_v, Signature, SignatureError};
use midl_escalator::transaction::{
    AccessList, AccessListItem, NameOrAddress, TransactionRequest,
};
use rlp::DecoderError;

const MINIMAL: &str = "f84e01808083989680808080a00000000000000000000000000000000000000000000000000000000000000000a0000000000000000000000000000000000000000000000000000000000000000080c0";
const NAMED: &str = "f84d018080839896808080a00000000000000000000000000000000000000000000000000000000000000000a0000000000000000000000000000000000000000000000000000000000000000080c0";
const FULL: &str = "f9016d82053907894000000000000000008901000000000000000094aaaaaaaaaaaaaaaaaaaaaaaaaaaaaaaaaaaaaaaaa08000000000000000000000000000000000000000000000000000000000000000b864000102030405060708090a0b0c0d0e0f101112131415161718191a1b1c1d1e1f202122232425262728292a2b2c2d2e2f303132333435363738393a3b3c3d3e3f404142434445464748494a4b4c4d4e4f505152535455565758595a5b5c5d5e5f60616263a00505050505050505050505050505050505050505050505050505050505050505a10102030405060708090a0b0c0d0e0f101112131415161718191a1b1c1d1e1f202181fff872f859941111111111111111111111111111111111111111f842a02222222222222222222222222222222222222222222222222222222222222222a03333333333333333333333333333333333333333333333333333333333333333d6944444444444444444444444444444444444444444c0";
const FULL_SIGNED: &str = "f901b082053907894000000000000000008901000000000000000094aaaaaaaaaaaaaaaaaaaaaaaaaaaaaaaaaaaaaaaaa08000000000000000000000000000000000000000000000000000000000000000b864000102030405060708090a0b0c0d0e0f101112131415161718191a1b1c1d1e1f202122232425262728292a2b2c2d2e2f303132333435363738393a3b3c3d3e3f404142434445464748494a4b4c4d4e4f505152535455565758595a5b5c5d5e5f60616263a00505050505050505050505050505050505050505050505050505050505050505a10102030405060708090a0b0c0d0e0f101112131415161718191a1b1c1d1e1f202181fff872f859941111111111111111111111111111111111111111f842a02222222222222222222222222222222222222222222222222222222222222222a03333333333333333333333333333333333333333333333333333333333333333d6944444444444444444444444444444444444444444c001a099c126da20397558f23658764c3a7c583db7ff706e93981cc170e27ca8336201a055f8a1d17925641d79eae7ae57f456cfb3f08965c8ee247c6196b15f267fbbc1";
const R: U256 = U256([0xc170e27ca8336201, 0x3db7ff706e93981c, 0xf23658764c3a7c58, 0x99c126da20397558]);
const S: U256 = U256([0x6196b15f267fbbc1, 0xb3f08965c8ee247c, 0x79eae7ae57f456cf, 0x55f8a1d17925641d]);
const HIGH_S: U256 = U256([0x5e3bad2da9b68580, 0x06be5380e65a7bbf, 0x86151851a80ba92f, 0xaa075e2e86da9be2]);
const SIGNER: &str = "e8a78b476ae1403b7fd39b662545ae608aced7c7";

fn hex(text: &str) -> Vec<u8> {
    (0..text.len() / 2).map(|i| u8::from_str_radix(&text[2 * i..2 * i + 2], 16).unwrap()).collect()
}

fn address(text: &str) -> Address {
    Address(hex(text).try_into().unwrap())
}

fn num(n: u64) -> U256 {
    U256::from(n)
}

fn full_request() -> MidlTransactionRequest {
    MidlTransactionRequest {
        tx: TransactionRequest {
            from: None,
            to: Some(NameOrAddress::Address(Address([0xaa; 20]))),
            gas: Some(U256([0, 1, 0, 0])),
            gas_price: Some(U256([0, 64, 0, 0])),
            value: Some(U256([0, 0, 0, 1 << 63])),
            data: Some(Bytes::from((0u8..100).collect::<Vec<u8>>())),
            nonce: Some(num(7)),
            chain_id: Some(1337),
        },
        btc_tx_hash: Some(H256::repeat_byte(5)),
        public_key: Some(Bytes::from((1u8..34).collect::<Vec<u8>>())),
        btc_address_byte: Some(num(255)),
        access_list: AccessList(vec![
            AccessListItem {
                address: Address([0x11; 20]),
                storage_keys: vec![H256::repeat_byte(0x22), H256::repeat_byte(0x33)],
            },
            AccessListItem { address: Address([0x44; 20]), storage_keys: vec![] },
        ]),
    }
}

/// The form that an encoding of the empty request is read back in.
fn minimal_canonical() -> MidlTransactionRequest {
    MidlTransactionRequest::new(TransactionRequest {
        gas: Some(num(MIDL_DEFAULT_GAS_LIMIT)),
        gas_price: Some(num(0)),
        value: Some(num(0)),
        nonce: Some(num(0)),
        chain_id: Some(1),
        ..Default::default()
    })
}

#[test]
fn rlp_prefix_is_type_seven() {
    let request = MidlTransactionRequest::new(TransactionRequest {
        chain_id: Some(1u64),
        to: Some(NameOrAddress::Address(Address::zero())),
        gas: Some(num(21_000)),
        gas_price: Some(num(1)),
        value: Some(U256::from(1)),
        ..Default::default()
    })
    .with_btc_tx_hash(H256::repeat_byte(2))
    .with_public_key(Bytes::from(vec![2u8; PUBLIC_KEY_LENGTH]));

    let encoded = request.typed_rlp();
    assert_eq!(encoded.0[0], 0x07);
    assert_eq!(
        encoded.0[1..].to_vec(),
        hex("f8610180018252089400000000000000000000000000000000000000000180a00202020202020202020202020202020202020202020202020202020202020202a0020202020202020202020202020202020202020202020202020202020202020280c0")
    );
}

#[test]
fn minimal_request_is_written_with_defaults() {
    assert_eq!(MidlTransactionRequest::default().rlp().0, hex(MINIMAL));
}

#[test]
fn unresolved_name_leaves_no_bytes() {
    let request = MidlTransactionRequest::new(TransactionRequest {
        to: Some(NameOrAddress::Name(String::from("name.eth"))),
        ..Default::default()
    });
    assert_eq!(request.rlp().0, hex(NAMED));
}

#[test]
fn full_request_is_written_field_by_field() {
    assert_eq!(full_request().rlp().0, hex(FULL));
}

#[test]
fn sighash_is_the_digest_of_the_typed_encoding() {
    assert_eq!(
        full_request().sighash().0.to_vec(),
        hex("17fd316a97ad141ef991759a99a4e7f7fdc5611a13bf8e0439f76afe2b770b5a")
    );
    assert_eq!(
        MidlTransactionRequest::default().sighash().0.to_vec(),
        hex("e348b99cabe1f397128c9b54ee01d70bc48acca03f36d45d24be21ff359748d2")
    );
}

#[test]
fn full_request_is_read_back() {
    assert_eq!(MidlTransactionRequest::decode(&hex(FULL)), Ok(full_request()));
}

#[test]
fn minimal_request_is_read_back_in_canonical_form() {
    assert_eq!(MidlTransactionRequest::decode(&hex(MINIMAL)), Ok(minimal_canonical()));
    assert_eq!(minimal_canonical().rlp().0, hex(MINIMAL));
}

#[test]
fn zero_fields_are_read_back_as_absent() {
    let request = MidlTransactionRequest::default()
        .with_btc_tx_hash(H256::zero())
        .with_public_key(zero_public_key())
        .with_btc_address_byte(0u64);
    assert_eq!(request.rlp().0, hex(MINIMAL));
    assert_eq!(MidlTransactionRequest::decode(&request.rlp().0), Ok(minimal_canonical()));
}

#[test]
fn zero_key_of_another_length_is_written_again_at_the_usual_length() {
    let request = MidlTransactionRequest::default().with_public_key(Bytes::from(vec![0u8; 5]));
    let decoded = MidlTransactionRequest::decode(&request.rlp().0).unwrap();
    assert_eq!(decoded, minimal_canonical());
    assert_ne!(decoded.rlp(), request.rlp());
}

#[test]
fn each_field_leaves_its_mark() {
    let full = || full_request();
    let changed = [
        full().with_btc_tx_hash(H256::repeat_byte(6)),
        full().with_public_key(Bytes(vec![1; 32])),
        full().with_btc_address_byte(254u64),
        full().with_access_list(AccessList(vec![])),
        MidlTransactionRequest { tx: TransactionRequest { nonce: Some(num(8)), ..full().tx }, ..full() },
        MidlTransactionRequest { tx: TransactionRequest { data: None, ..full().tx }, ..full() },
        MidlTransactionRequest { tx: TransactionRequest { chain_id: Some(2), ..full().tx }, ..full() },
        MidlTransactionRequest { tx: TransactionRequest { to: None, ..full().tx }, ..full() },
    ];
    for request in changed {
        assert_ne!(request.rlp(), full().rlp());
        assert_eq!(MidlTransactionRequest::decode(&request.rlp().0), Ok(request));
    }
}

#[test]
fn sender_is_not_written() {
    let mut request = full_request();
    request.tx.from = Some(Address([9; 20]));
    assert_eq!(request.rlp().0, hex(FULL));
    assert_eq!(MidlTransactionRequest::decode(&request.rlp().0), Ok(full_request()));
}

#[test]
fn signed_request_is_written_with_its_signature() {
    let plain = Signature { r: R, s: S, v: 1 };
    let folded = Signature { r: R, s: S, v: 1337 * 2 + 36 };
    assert_eq!(full_request().rlp_signed(&plain).0, hex(FULL_SIGNED));
    assert_eq!(full_request().rlp_signed(&folded).0, hex(FULL_SIGNED));
}

#[test]
fn signed_request_is_read_back_with_its_signer() {
    let (request, sig) = MidlTransactionRequest::decode_signed_rlp(&hex(FULL_SIGNED)).unwrap();
    let mut expected = full_request();
    expected.tx.from = Some(address(SIGNER));
    assert_eq!(request, expected);
    assert_eq!(sig, Signature { r: R, s: S, v: 1 });
    assert_eq!(request.sighash(), full_request().sighash());
}

#[test]
fn signed_request_is_read_as_an_unsigned_one() {
    assert_eq!(MidlTransactionRequest::decode(&hex(FULL_SIGNED)), Ok(full_request()));
}

#[test]
fn lists_with_too_few_fields_are_refused() {
    for len in 0u8..11 {
        let mut raw = vec![0xc0 + len];
        raw.resize(1 + len as usize, 1);
        assert!(MidlTransactionRequest::decode(&raw).is_err());
    }
    let mut raw = hex(MINIMAL);
    raw.extend_from_slice(&[1, 1]);
    raw[1] += 2;
    assert_eq!(MidlTransactionRequest::decode(&raw), Ok(minimal_canonical()));
    assert!(matches!(
        MidlTransactionRequest::decode_signed_rlp(&raw),
        Err(MidlRequestError::DecodingError(DecoderError::RlpIsTooShort))
    ));
}

#[test]
fn signer_of_a_high_signature_is_the_same() {
    let hash = full_request().sighash();
    let signer = Ok(address(SIGNER));
    assert_eq!(Signature { r: R, s: S, v: 1 }.recover(&hash), signer);
    assert_eq!(Signature { r: R, s: HIGH_S, v: 0 }.recover(&hash), signer);
    assert_eq!(Signature { r: R, s: S, v: 28 }.recover(&hash), signer);
    assert_eq!(Signature { r: R, s: S, v: 36 }.recover(&hash), signer);
    assert_ne!(Signature { r: R, s: S, v: 0 }.recover(&hash), signer);
    assert_ne!(Signature { r: R, s: S, v: 1 }.recover(&H256::repeat_byte(1)), signer);
}

#[test]
fn bad_signatures_have_no_signer() {
    let hash = full_request().sighash();
    let order = U256([0xBFD25E8CD0364141, 0xBAAEDCE6AF48A03B, 0xFFFFFFFFFFFFFFFE, u64::MAX]);
    let error = Err(SignatureError::K256Error);
    assert_eq!(Signature { r: num(0), s: S, v: 1 }.recover(&hash), error);
    assert_eq!(Signature { r: R, s: num(0), v: 1 }.recover(&hash), error);
    assert_eq!(Signature { r: order, s: S, v: 1 }.recover(&hash), error);
    assert_eq!(Signature { r: R, s: order, v: 1 }.recover(&hash), error);
    assert_eq!(Signature { r: R, s: S, v: 2 }.recover(&hash), error);
}

#[test]
fn bad_signature_of_a_request_is_a_recovery_error() {
    let raw = full_request().rlp_signed(&Signature { r: num(0), s: S, v: 0 });
    assert!(matches!(
        MidlTransactionRequest::decode_signed_rlp(&raw.0),
        Err(MidlRequestError::RecoveryError(SignatureError::K256Error))
    ));
}

#[test]
fn missing_signature_is_a_decoding_error() {
    assert!(matches!(
        MidlTransactionRequest::decode_signed_rlp(&hex(FULL)),
        Err(MidlRequestError::DecodingError(DecoderError::RlpIsTooShort))
    ));
}

#[test]
fn malformed_lists_are_decoding_errors() {
    assert_eq!(MidlTransactionRequest::decode(&[]), Err(DecoderError::RlpExpectedToBeList));
    assert_eq!(MidlTransactionRequest::decode(&[0x83, 1, 2, 3]), Err(DecoderError::RlpExpectedToBeList));
    assert_eq!(MidlTransactionRequest::decode(&[0xc0]), Err(DecoderError::RlpIsTooShort));
    let raw = hex(FULL);
    assert_eq!(
        MidlTransactionRequest::decode(&raw[..raw.len() - 1]),
        Err(DecoderError::RlpIsTooShort)
    );
}

#[test]
fn malformed_fields_are_decoding_errors() {
    // an overlong chain id
    assert_eq!(
        MidlTransactionRequest::decode(&[0xca, 0x89, 1, 2, 3, 4, 5, 6, 7, 8, 9]),
        Err(DecoderError::RlpIsTooBig)
    );
    // a nonce with a leading zero
    assert_eq!(
        MidlTransactionRequest::decode(&[0xc4, 1, 0x82, 0, 1]),
        Err(DecoderError::RlpInvalidIndirection)
    );
    // a recipient that is no address, and one that is a list
    assert_eq!(
        MidlTransactionRequest::decode(&[0xc7, 1, 1, 1, 1, 0x82, 1, 2]),
        Err(DecoderError::RlpIsTooShort)
    );
    assert_eq!(
        MidlTransactionRequest::decode(&[0xc5, 1, 1, 1, 1, 0xc0]),
        Err(DecoderError::RlpExpectedToBeData)
    );
    // a hash of one byte
    assert_eq!(
        MidlTransactionRequest::decode(&[0xc8, 1, 1, 1, 1, 0x80, 1, 0x80, 7]),
        Err(DecoderError::RlpIsTooShort)
    );
}

#[test]
fn access_list_entry_needs_an_address() {
    let mut raw = hex(MINIMAL);
    raw.pop();
    raw.extend_from_slice(&[0xc2, 0xc1, 0x07]);
    raw[1] += 2;
    assert_eq!(MidlTransactionRequest::decode(&raw), Err(DecoderError::RlpIsTooShort));
}

#[test]
fn normalized_fields() {
    let empty = MidlTransactionRequest::default();
    assert_eq!(empty.normalized_gas(), num(10_000_000));
    assert_eq!(empty.normalized_btc_tx_hash(), H256::zero());
    assert_eq!(empty.normalized_public_key(), Bytes(vec![0; 32]));
    assert_eq!(empty.normalized_btc_address_byte(), num(0));
    assert_eq!(empty.normalized_tx().gas, Some(num(10_000_000)));
    assert_eq!(empty.normalized_tx().gas_price, Some(num(0)));
    assert_eq!(empty.normalized_tx().nonce, None);
    let full = full_request();
    assert_eq!(full.normalized_gas(), U256([0, 1, 0, 0]));
    assert_eq!(full.normalized_btc_tx_hash(), H256::repeat_byte(5));
    assert_eq!(full.normalized_public_key().0.len(), 33);
    assert_eq!(full.normalized_btc_address_byte(), num(255));
    assert_eq!(full.normalized_tx(), full.tx);
}

#[test]
fn zero_bytes() {
    assert!(is_zero_bytes(&zero_public_key()));
    assert!(is_zero_bytes(&Bytes(vec![])));
    assert!(!is_zero_bytes(&Bytes(vec![0, 0, 1])));
}

#[test]
fn builders_set_one_field_each() {
    let list = || full_request().access_list;
    let request = MidlTransactionRequest::new(full_request().tx)
        .with_access_list(list())
        .with_btc_tx_hash(H256::repeat_byte(5))
        .with_public_key(Bytes::from((1u8..34).collect::<Vec<u8>>()))
        .with_btc_address_byte(255u64);
    assert_eq!(request, full_request());
    let from_items = MidlTransactionRequest::new(full_request().tx).with_access_list(list().0);
    assert_eq!(from_items.access_list, list());
    assert_eq!(from_items.btc_tx_hash, None);
}

#[test]
fn chain_transaction_becomes_a_request() {
    let mut tx = Transaction {
        from: Address([1; 20]),
        to: Some(Address([2; 20])),
        gas: num(3),
        gas_price: Some(num(4)),
        value: num(5),
        input: Bytes(vec![6]),
        nonce: num(7),
        chain_id: Some(8),
        access_list: Some(full_request().access_list),
        btc_tx_hash: Some(H256::repeat_byte(9)),
        public_key: Some(Bytes(vec![10])),
        btc_address_byte: Some(num(11)),
    };
    let request = MidlTransactionRequest::from(&tx);
    assert_eq!(
        request,
        MidlTransactionRequest {
            tx: TransactionRequest {
                from: Some(Address([1; 20])),
                to: Some(NameOrAddress::Address(Address([2; 20]))),
                gas: Some(num(3)),
                gas_price: Some(num(4)),
                value: Some(num(5)),
                data: Some(Bytes(vec![6])),
                nonce: Some(num(7)),
                chain_id: Some(8),
            },
            btc_tx_hash: Some(H256::repeat_byte(9)),
            public_key: Some(Bytes(vec![10])),
            btc_address_byte: Some(num(11)),
            access_list: full_request().access_list,
        }
    );
    tx.access_list = None;
    tx.to = None;
    assert_eq!(MidlTransactionRequest::from(&tx).access_list, AccessList(vec![]));
    assert_eq!(MidlTransactionRequest::from(&tx).tx.to, None);
}

#[test]
fn recovery_values() {
    assert_eq!(normalize_recovery_id(0), Some(0));
    assert_eq!(normalize_recovery_id(1), Some(1));
    assert_eq!(normalize_recovery_id(27), Some(0));
    assert_eq!(normalize_recovery_id(28), Some(1));
    assert_eq!(normalize_recovery_id(35), Some(0));
    assert_eq!(normalize_recovery_id(38), Some(1));
    assert_eq!(normalize_recovery_id(2), None);
    assert_eq!(normalize_recovery_id(34), None);
    assert_eq!(normalize_v(0, 5), 0);
    assert_eq!(normalize_v(1, 5), 1);
    assert_eq!(normalize_v(45, 5), 0);
    assert_eq!(normalize_v(46, 5), 1);
}

#[test]
fn larger_integer() {
    let small = U256([u64::MAX, u64::MAX, u64::MAX, 1]);
    let large = U256([0, 0, 0, 2]);
    assert_eq!(small.max(large), large);
    assert_eq!(large.max(small), large);
    assert_eq!(num(3).max(num(3)), num(3));
    assert!(U256::zero().is_zero());
    assert!(!large.is_zero());
}
