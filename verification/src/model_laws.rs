//! What the models of the data types show, what it is to be equal, and what conversions give.

use crate::gas_escalator::monitored::{MonitoredTransaction, Prices};
use crate::gas_escalator::sending::monitored_views;
use crate::midl::MidlTransactionRequest;
use crate::midl_signed::MidlRequestError;
use crate::primitives::{
    lemma_address_injective, lemma_hash_injective, lemma_u256_injective, Address, Bytes, H256,
    U256,
};
use crate::signature::{Signature, SignatureError};
use crate::transaction::{
    AccessList, AccessListItem, Eip1559TransactionRequest, Eip2930TransactionRequest,
    NameOrAddress, NameOrAddressView, TransactionRequest,
};
use crate::typed_transaction::{TypedTransaction, TypedTransactionView};
use rlp::DecoderError;
use vstd::prelude::*;
use vstd::std_specs::cmp::PartialEqSpec;
use vstd::std_specs::convert::FromSpec;

verus! {

/// A 256-bit integer is the number whose digits to the base 2^64 its limbs are, the lowest first.
pub proof fn law_limbs_are_digits(n: U256)
    ensures
        n@ == n.0[0] + 0x1_0000_0000_0000_0000 * (n.0[1] + 0x1_0000_0000_0000_0000 * (n.0[2]
            + 0x1_0000_0000_0000_0000 * n.0[3])),
{
}

/// Hashes, addresses and byte strings are the bytes that they hold.
pub proof fn law_bytes_are_shown(hash: H256, address: Address, bytes: Bytes)
    ensures
        hash@ == hash.0@,
        address@ == address.0@,
        bytes@ == bytes.0@,
{
}

/// The model of a request shows each of its fields.
pub proof fn law_request_is_shown(x: TransactionRequest)
    ensures
        x.from matches Some(a) ==> x@.from == Some(a@),
        x.from is None ==> x@.from is None,
        x.to matches Some(NameOrAddress::Address(a)) ==> x@.to == Some(
            NameOrAddressView::Address(a@),
        ),
        x.to matches Some(NameOrAddress::Name(name)) ==> x@.to == Some(
            NameOrAddressView::Name(name@),
        ),
        x.to is None ==> x@.to is None,
        x.gas matches Some(n) ==> x@.gas == Some(n@),
        x.gas is None ==> x@.gas is None,
        x.gas_price matches Some(n) ==> x@.gas_price == Some(n@),
        x.gas_price is None ==> x@.gas_price is None,
        x.value matches Some(n) ==> x@.value == Some(n@),
        x.value is None ==> x@.value is None,
        x.data matches Some(data) ==> x@.data == Some(data@),
        x.data is None ==> x@.data is None,
        x.nonce matches Some(n) ==> x@.nonce == Some(n@),
        x.nonce is None ==> x@.nonce is None,
        x@.chain_id == x.chain_id,
{
}

/// The model of an access list shows each entry, in order, with its account and its slots.
pub proof fn law_access_list_is_shown(list: AccessList, i: int, k: int)
    requires
        0 <= i < list.0@.len(),
    ensures
        list@.len() == list.0@.len(),
        list@[i].address == list.0@[i].address@,
        list@[i].storage_keys.len() == list.0@[i].storage_keys@.len(),
        0 <= k < list.0@[i].storage_keys@.len() ==> list@[i].storage_keys[k]
            == list.0@[i].storage_keys@[k]@,
{
}

/// The model of a request with an access list shows both.
pub proof fn law_eip2930_is_shown(x: Eip2930TransactionRequest)
    ensures
        x@.tx == x.tx@,
        x@.access_list == x.access_list@,
{
}

/// The model of a request with a fee market bid shows each of its fields.
pub proof fn law_eip1559_is_shown(x: Eip1559TransactionRequest)
    ensures
        x.from matches Some(a) ==> x@.from == Some(a@),
        x.from is None ==> x@.from is None,
        x.to matches Some(to) ==> x@.to == Some(to@),
        x.to is None ==> x@.to is None,
        x.gas matches Some(n) ==> x@.gas == Some(n@),
        x.gas is None ==> x@.gas is None,
        x.value matches Some(n) ==> x@.value == Some(n@),
        x.value is None ==> x@.value is None,
        x.data matches Some(data) ==> x@.data == Some(data@),
        x.data is None ==> x@.data is None,
        x.nonce matches Some(n) ==> x@.nonce == Some(n@),
        x.nonce is None ==> x@.nonce is None,
        x@.access_list == x.access_list@,
        x.max_fee_per_gas matches Some(n) ==> x@.max_fee_per_gas == Some(n@),
        x.max_fee_per_gas is None ==> x@.max_fee_per_gas is None,
        x.max_priority_fee_per_gas matches Some(n) ==> x@.max_priority_fee_per_gas == Some(n@),
        x.max_priority_fee_per_gas is None ==> x@.max_priority_fee_per_gas is None,
        x@.chain_id == x.chain_id,
{
}

/// The model of a Midl transaction shows each of its fields.
pub proof fn law_midl_is_shown(x: MidlTransactionRequest)
    ensures
        x@.tx == x.tx@,
        x.btc_tx_hash matches Some(hash) ==> x@.btc_tx_hash == Some(hash@),
        x.btc_tx_hash is None ==> x@.btc_tx_hash is None,
        x.public_key matches Some(key) ==> x@.public_key == Some(key@),
        x.public_key is None ==> x@.public_key is None,
        x.btc_address_byte matches Some(byte) ==> x@.btc_address_byte == Some(byte@),
        x.btc_address_byte is None ==> x@.btc_address_byte is None,
        x@.access_list == x.access_list@,
{
}

/// The model of a transaction shows of which kind it is, and the request.
pub proof fn law_typed_transaction_is_shown(x: TypedTransaction)
    ensures
        x matches TypedTransaction::Legacy(tx) ==> x@ == TypedTransactionView::Legacy(tx@),
        x matches TypedTransaction::Eip2930(tx) ==> x@ == TypedTransactionView::Eip2930(tx@),
        x matches TypedTransaction::Eip1559(tx) ==> x@ == TypedTransactionView::Eip1559(tx@),
        x matches TypedTransaction::Midl(tx) ==> x@ == TypedTransactionView::Midl(tx@),
{
}

/// The models of signatures, prices and watched transactions show each of their fields, and a list
/// of watched transactions shows each of them, in order.
pub proof fn law_watched_transactions_are_shown(
    sig: Signature,
    prices: Prices,
    txs: Seq<MonitoredTransaction>,
    i: int,
)
    requires
        0 <= i < txs.len(),
    ensures
        sig@.r == sig.r@ && sig@.s == sig.s@ && sig@.v == sig.v,
        prices@.fee == prices.fee@ && prices@.priority == prices.priority@,
        monitored_views(txs).len() == txs.len(),
        monitored_views(txs)[i] == txs[i]@,
        txs[i]@.hash == txs[i].hash,
        txs[i]@.inner == txs[i].inner@,
        txs[i]@.creation_time == txs[i].creation_time,
        txs[i]@.block == txs[i].block,
        txs[i]@.initial_prices == txs[i].initial_prices@,
        txs[i]@.first_broadcast == txs[i].first_broadcast,
{
}

/// Values are equal if and only if their models are.
pub proof fn law_equal_is_to_look_the_same(
    numbers: (U256, U256),
    hashes: (H256, H256),
    addresses: (Address, Address),
    bytes: (Bytes, Bytes),
    recipients: (NameOrAddress, NameOrAddress),
    entries: (AccessListItem, AccessListItem),
    lists: (AccessList, AccessList),
    signatures: (Signature, Signature),
)
    ensures
        U256::obeys_eq_spec() && numbers.0.eq_spec(&numbers.1) == (numbers.0@ == numbers.1@),
        H256::obeys_eq_spec() && hashes.0.eq_spec(&hashes.1) == (hashes.0@ == hashes.1@),
        Address::obeys_eq_spec() && addresses.0.eq_spec(&addresses.1) == (addresses.0@
            == addresses.1@),
        Bytes::obeys_eq_spec() && bytes.0.eq_spec(&bytes.1) == (bytes.0@ == bytes.1@),
        NameOrAddress::obeys_eq_spec() && recipients.0.eq_spec(&recipients.1) == (recipients.0@
            == recipients.1@),
        AccessListItem::obeys_eq_spec() && entries.0.eq_spec(&entries.1) == (entries.0@
            == entries.1@),
        AccessList::obeys_eq_spec() && lists.0.eq_spec(&lists.1) == (lists.0@ == lists.1@),
        Signature::obeys_eq_spec() && signatures.0.eq_spec(&signatures.1) == (signatures.0@
            == signatures.1@),
{
    lemma_u256_injective(numbers.0, numbers.1);
    lemma_hash_injective(hashes.0, hashes.1);
    lemma_address_injective(addresses.0, addresses.1);
}

/// Requests and transactions are equal if and only if their models are.
pub proof fn law_equal_requests_look_the_same(
    plain: (TransactionRequest, TransactionRequest),
    listed: (Eip2930TransactionRequest, Eip2930TransactionRequest),
    bidding: (Eip1559TransactionRequest, Eip1559TransactionRequest),
    midl: (MidlTransactionRequest, MidlTransactionRequest),
    typed: (TypedTransaction, TypedTransaction),
)
    ensures
        TransactionRequest::obeys_eq_spec() && plain.0.eq_spec(&plain.1) == (plain.0@ == plain.1@),
        Eip2930TransactionRequest::obeys_eq_spec() && listed.0.eq_spec(&listed.1) == (listed.0@
            == listed.1@),
        Eip1559TransactionRequest::obeys_eq_spec() && bidding.0.eq_spec(&bidding.1) == (bidding.0@
            == bidding.1@),
        MidlTransactionRequest::obeys_eq_spec() && midl.0.eq_spec(&midl.1) == (midl.0@ == midl.1@),
        TypedTransaction::obeys_eq_spec() && typed.0.eq_spec(&typed.1) == (typed.0@ == typed.1@),
{
}

/// Conversions keep what they are given: an integer its value, bytes and entries their order, and
/// an error the error.
pub proof fn law_conversions_keep_what_they_get(
    n: u64,
    bytes: Vec<u8>,
    items: Vec<AccessListItem>,
    unread: DecoderError,
    unsigned: SignatureError,
)
    ensures
        <U256 as FromSpec<u64>>::obeys_from_spec(),
        <U256 as FromSpec<u64>>::from_spec(n)@ == n,
        <Bytes as FromSpec<Vec<u8>>>::obeys_from_spec(),
        <Bytes as FromSpec<Vec<u8>>>::from_spec(bytes)@ == bytes@,
        <AccessList as FromSpec<Vec<AccessListItem>>>::obeys_from_spec(),
        <AccessList as FromSpec<Vec<AccessListItem>>>::from_spec(items).0@ == items@,
        <MidlRequestError as FromSpec<DecoderError>>::obeys_from_spec(),
        <MidlRequestError as FromSpec<DecoderError>>::from_spec(unread)
            == MidlRequestError::DecodingError(unread),
        <MidlRequestError as FromSpec<SignatureError>>::obeys_from_spec(),
        <MidlRequestError as FromSpec<SignatureError>>::from_spec(unsigned)
            == MidlRequestError::RecoveryError(unsigned),
{
}

} // verus!
