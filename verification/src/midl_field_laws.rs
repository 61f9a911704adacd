//! What is written of each field of a Midl transaction and what is read back of it, said of the
//! fields themselves.

use crate::codec::{rlp_address, rlp_h256, rlp_item_at, rlp_payload, rlp_u256, rlp_u64};
use crate::decoding::{access_list_at, decoded_entry, entries_from, hashes_from};
use crate::encoding::{access_list_field, entries, entry_fields, strings};
use crate::midl::{
    midl_fields, midl_rlp, midl_signed_fields, midl_signed_rlp, midl_typed_rlp,
    MidlTransactionRequest, MidlTransactionRequestView,
};
use crate::midl_decoding::midl_in;
use crate::midl_laws::law_sender_is_not_encoded;
use crate::midl_request::{midl_of, plain_midl, Transaction};
use crate::midl_signed::{
    plain_signature, signature_in, signed_by, signed_midl_in, signer_of, MidlRequestError,
};
use crate::primitives::opt_view;
use crate::rlp_format::{big_endian, concat, rlp_list, rlp_string, rlp_uint};
use crate::signature::{
    keccak256_digest, recovered_address, Signature, SignatureError, SignatureView,
};
use crate::signature_laws::law_folding_is_undone;
use crate::transaction::{
    empty_request, AccessListItemView, NameOrAddress, NameOrAddressView, TransactionRequest,
    TransactionRequestView,
};
use rlp::DecoderError;
use vstd::prelude::*;

verus! {

/// Each field that is present is written as it is, at its own position, whatever other fields are
/// absent. An absent one is written as its default: chain 1, the gas limit ten million, the gas
/// price 0, the empty string for nonce, recipient, value and data, and zeros for the rest.
pub proof fn law_each_field_is_written(x: MidlTransactionRequest)
    ensures
        ({
            let f = midl_fields(x@);
            let empty = seq![0x80u8];
            &&& f.len() == 11
            &&& f[0] == rlp_uint(
                match x.tx.chain_id {
                    Some(id) => id as nat,
                    None => 1,
                },
            )
            &&& x.tx.nonce matches Some(nonce) ==> f[1] == rlp_uint(nonce@)
            &&& x.tx.nonce is None ==> f[1] == empty
            &&& x.tx.gas_price matches Some(price) ==> f[2] == rlp_uint(price@)
            &&& x.tx.gas_price is None ==> f[2] == empty
            &&& x.tx.gas matches Some(gas) ==> f[3] == rlp_uint(gas@)
            &&& x.tx.gas is None ==> f[3] == rlp_uint(10_000_000)
            &&& x.tx.to matches Some(NameOrAddress::Address(address)) ==> f[4] == rlp_string(
                address@,
            )
            &&& x.tx.to matches Some(NameOrAddress::Name(_)) ==> f[4].len() == 0
            &&& x.tx.to is None ==> f[4] == empty
            &&& x.tx.value matches Some(value) ==> f[5] == rlp_uint(value@)
            &&& x.tx.value is None ==> f[5] == empty
            &&& x.tx.data matches Some(data) ==> f[6] == rlp_string(data@)
            &&& x.tx.data is None ==> f[6] == empty
            &&& x.btc_tx_hash matches Some(hash) ==> f[7] == rlp_string(hash@)
            &&& x.btc_tx_hash is None ==> f[7] == rlp_string(Seq::new(32, |i: int| 0u8))
            &&& x.public_key matches Some(key) ==> f[8] == rlp_string(key@)
            &&& x.public_key is None ==> f[8] == rlp_string(Seq::new(32, |i: int| 0u8))
            &&& x.btc_address_byte matches Some(byte) ==> f[9] == rlp_uint(byte@)
            &&& x.btc_address_byte is None ==> f[9] == empty
            &&& f[10] == access_list_field(x.access_list@)
        }),
{
    lemma_empty_string();
}

/// Nothing, written as a string or as the integer 0, is a single byte.
proof fn lemma_empty_string()
    ensures
        rlp_string(Seq::empty()) == seq![0x80u8],
        rlp_uint(0) == seq![0x80u8],
{
    assert(big_endian(0) =~= Seq::empty());
    assert(rlp_string(Seq::empty()) =~= seq![0x80u8]);
}

/// The encodings are lists of just these fields. What is hashed to be signed is the unsigned one
/// behind the byte 0x07.
pub proof fn law_encodings_are_lists_of_the_fields(
    m: MidlTransactionRequestView,
    sig: SignatureView,
)
    ensures
        midl_rlp(m) == rlp_list(concat(midl_fields(m))),
        midl_signed_rlp(m, sig) == rlp_list(concat(midl_signed_fields(m, sig))),
        midl_typed_rlp(m) == seq![0x07u8] + midl_rlp(m),
        signer_of(m, sig) == recovered_address(
            keccak256_digest(seq![0x07u8] + midl_rlp(m)),
            sig,
        ),
{
}

/// What is read back of a request is promised unless it goes to a name, and the signature is read
/// back with both halves as they are and with its recovery value in the plain form.
pub proof fn law_scope_of_reading_back(x: MidlTransactionRequest, sig: Signature, chain_id: u64)
    requires
        x.tx.chain_id matches Some(id) ==> chain_id == id,
        x.tx.chain_id is None ==> chain_id == 1,
    ensures
        x@.is_resolved() <==> !(x.tx.to matches Some(NameOrAddress::Name(_))),
        plain_signature(x@, sig@).r == sig.r@,
        plain_signature(x@, sig@).s == sig.s@,
        sig.v <= 1 ==> plain_signature(x@, sig@).v == sig.v,
        sig.v >= 2 * chain_id + 35 ==> plain_signature(x@, sig@).v + 2 * chain_id + 35 == sig.v,
{
}

/// A signed transaction has the fields of the unsigned one first, and then the recovery value in
/// the plain form and both halves of the signature, as they are. The plain form of a value of 0 or
/// 1 is itself, that of `2 chain + 35 + k` is `k`.
pub proof fn law_signature_is_written(x: MidlTransactionRequest, sig: Signature, k: u64)
    ensures
        ({
            let f = midl_signed_fields(x@, sig@);
            let chain = match x.tx.chain_id {
                Some(id) => id,
                None => 1,
            };
            &&& f.len() == 14
            &&& f.take(11) == midl_fields(x@)
            &&& sig.v <= 1 ==> f[11] == rlp_uint(sig.v as nat)
            &&& sig.v == 2 * chain + 35 + k ==> f[11] == rlp_uint(k as nat)
            &&& f[12] == rlp_uint(sig.r@)
            &&& f[13] == rlp_uint(sig.s@)
        }),
{
    let f = midl_signed_fields(x@, sig@);
    assert(midl_fields(x@).len() == 11);
    assert(f.take(11) =~= midl_fields(x@));
}

/// It does not matter to the encoding, nor to the signer, whether a signature is given plainly or
/// with the chain folded in.
pub proof fn law_folding_does_not_matter(
    x: MidlTransactionRequest,
    chain_id: u64,
    r: nat,
    s: nat,
    v: u64,
)
    requires
        x.tx.chain_id matches Some(id) ==> chain_id == id,
        x.tx.chain_id is None ==> chain_id == 1,
        v <= 1,
        2 * chain_id + 35 + v <= u64::MAX,
    ensures
        ({
            let plain = SignatureView { r, s, v };
            let folded = SignatureView { r, s, v: (2 * chain_id + 35 + v) as u64 };
            &&& midl_signed_rlp(x@, folded) == midl_signed_rlp(x@, plain)
            &&& plain_signature(x@, folded) == plain
            &&& plain_signature(x@, plain) == plain
            &&& signer_of(x@, folded) == signer_of(x@, plain)
        }),
{
    law_folding_is_undone(chain_id, v);
}

/// Each field that is present is read back as it is, whatever other fields are absent; only data
/// that is empty and fields of zeros are read back as absent. What is absent is read back as its
/// default where it has one. The sender is not encoded, and the access list is read back whole.
pub proof fn law_each_field_is_read_back(x: MidlTransactionRequest)
    ensures
        ({
            let c = x@.canonical();
            &&& c.tx.from is None
            &&& x.tx.chain_id matches Some(id) ==> c.tx.chain_id == Some(id)
            &&& x.tx.chain_id is None ==> c.tx.chain_id == Some(1u64)
            &&& x.tx.nonce matches Some(nonce) ==> c.tx.nonce == Some(nonce@)
            &&& x.tx.nonce is None ==> c.tx.nonce == Some(0nat)
            &&& x.tx.gas_price matches Some(price) ==> c.tx.gas_price == Some(price@)
            &&& x.tx.gas_price is None ==> c.tx.gas_price == Some(0nat)
            &&& x.tx.gas matches Some(gas) ==> c.tx.gas == Some(gas@)
            &&& x.tx.gas is None ==> c.tx.gas == Some(10_000_000nat)
            &&& x.tx.to matches Some(NameOrAddress::Address(address)) ==> c.tx.to == Some(
                NameOrAddressView::Address(address@),
            )
            &&& x.tx.to is None ==> c.tx.to is None
            &&& x.tx.value matches Some(value) ==> c.tx.value == Some(value@)
            &&& x.tx.value is None ==> c.tx.value == Some(0nat)
            &&& x.tx.data matches Some(data) ==> (data@.len() > 0 ==> c.tx.data == Some(data@))
            &&& x.tx.data matches Some(data) ==> (data@.len() == 0 ==> c.tx.data is None)
            &&& x.tx.data is None ==> c.tx.data is None
            &&& x.btc_tx_hash matches Some(hash) ==> (hash@ != Seq::new(32, |i: int| 0u8)
                ==> c.btc_tx_hash == Some(hash@))
            &&& x.btc_tx_hash matches Some(hash) ==> (hash@ == Seq::new(32, |i: int| 0u8)
                ==> c.btc_tx_hash is None)
            &&& x.btc_tx_hash is None ==> c.btc_tx_hash is None
            &&& x.public_key matches Some(key) ==> ((exists|i: int|
                0 <= i < key@.len() && key@[i] != 0) ==> c.public_key == Some(key@))
            &&& x.public_key matches Some(key) ==> ((forall|i: int|
                0 <= i < key@.len() ==> key@[i] == 0) ==> c.public_key is None)
            &&& x.public_key is None ==> c.public_key is None
            &&& x.btc_address_byte matches Some(byte) ==> (byte@ != 0 ==> c.btc_address_byte
                == Some(byte@))
            &&& x.btc_address_byte matches Some(byte) ==> (byte@ == 0
                ==> c.btc_address_byte is None)
            &&& x.btc_address_byte is None ==> c.btc_address_byte is None
            &&& c.access_list == x.access_list@
        }),
{
}

/// What the encoding fills in for absent fields, and what it leaves alone.
pub proof fn law_defaults(x: MidlTransactionRequest)
    ensures
        ({
            let n = x@.normalized_tx();
            &&& n.gas == Some(x@.normalized_gas())
            &&& x.tx.gas matches Some(gas) ==> x@.normalized_gas() == gas@
            &&& x.tx.gas is None ==> x@.normalized_gas() == 10_000_000
            &&& x.tx.gas_price matches Some(price) ==> n.gas_price == Some(price@)
            &&& x.tx.gas_price is None ==> n.gas_price == Some(0nat)
            &&& n.from == opt_view(x.tx.from)
            &&& n.to == opt_view(x.tx.to)
            &&& n.value == opt_view(x.tx.value)
            &&& n.data == opt_view(x.tx.data)
            &&& n.nonce == opt_view(x.tx.nonce)
            &&& n.chain_id == x.tx.chain_id
            &&& x.btc_tx_hash matches Some(hash) ==> x@.normalized_btc_tx_hash() == hash@
            &&& x.btc_tx_hash is None ==> x@.normalized_btc_tx_hash() == Seq::new(
                32,
                |i: int| 0u8,
            )
            &&& x.public_key matches Some(key) ==> x@.normalized_public_key() == key@
            &&& x.public_key is None ==> x@.normalized_public_key() == Seq::new(32, |i: int| 0u8)
            &&& x.btc_address_byte matches Some(byte) ==> x@.normalized_btc_address_byte() == byte@
            &&& x.btc_address_byte is None ==> x@.normalized_btc_address_byte() == 0
        }),
{
}

/// An access list is a list with one item for each entry, in order. Each is a list of the account
/// and of the list of the storage slots, in order.
pub proof fn law_access_list_is_written(list: Seq<AccessListItemView>)
    ensures
        access_list_field(list) == rlp_list(
            concat(
                Seq::new(
                    list.len(),
                    |i: int|
                        rlp_list(
                            rlp_string(list[i].address) + rlp_list(
                                concat(
                                    Seq::new(
                                        list[i].storage_keys.len(),
                                        |k: int| rlp_string(list[i].storage_keys[k]),
                                    ),
                                ),
                            ),
                        ),
                ),
            ),
        ),
{
    let direct = Seq::new(
        list.len(),
        |i: int|
            rlp_list(
                rlp_string(list[i].address) + rlp_list(
                    concat(
                        Seq::new(
                            list[i].storage_keys.len(),
                            |k: int| rlp_string(list[i].storage_keys[k]),
                        ),
                    ),
                ),
            ),
    );
    assert forall|i: int| 0 <= i < list.len() implies entries(list)[i]
        == #[trigger] direct[i] by {
        let fields = entry_fields(list[i]);
        let keys = Seq::new(
            list[i].storage_keys.len(),
            |k: int| rlp_string(list[i].storage_keys[k]),
        );
        assert(strings(list[i].storage_keys) =~= keys);
        assert(fields.drop_last().drop_last() =~= Seq::empty());
        reveal_with_fuel(concat, 3);
        assert(concat(fields) =~= fields[0] + fields[1]);
    }
    assert(entries(list) =~= direct);
}

/// What is read from a list is what stands at its positions: chain id, nonce, gas price, gas,
/// recipient, value, data, hash, key, address byte and access list. An empty recipient, empty data
/// and fields of zeros are read as absent.
pub proof fn law_each_position_is_read(raw: Seq<u8>)
    ensures
        midl_in(raw) matches Ok(m) ==> {
            let item = |i: nat| rlp_item_at(raw, i, usize::BITS)->Ok_0;
            let key_bytes = rlp_payload(item(8), usize::BITS)->Ok_0;
            &&& forall|i: nat| i < 11 ==> (#[trigger] rlp_item_at(raw, i, usize::BITS)) is Ok
            &&& m.tx.from is None
            &&& rlp_u64(item(0), usize::BITS) == Ok::<u64, DecoderError>(m.tx.chain_id->0)
            &&& m.tx.chain_id is Some
            &&& rlp_u256(item(1), usize::BITS) == Ok::<nat, DecoderError>(m.tx.nonce->0)
            &&& m.tx.nonce is Some
            &&& rlp_u256(item(2), usize::BITS) == Ok::<nat, DecoderError>(m.tx.gas_price->0)
            &&& m.tx.gas_price is Some
            &&& rlp_u256(item(3), usize::BITS) == Ok::<nat, DecoderError>(m.tx.gas->0)
            &&& m.tx.gas is Some
            &&& m.tx.to is None <==> item(4).len() > 0 && item(4)[0] == 0x80
            &&& m.tx.to matches Some(to) ==> to is Address && rlp_address(item(4), usize::BITS)
                == Ok::<Seq<u8>, DecoderError>(to->Address_0)
            &&& rlp_u256(item(5), usize::BITS) == Ok::<nat, DecoderError>(m.tx.value->0)
            &&& m.tx.value is Some
            &&& rlp_payload(item(6), usize::BITS) is Ok
            &&& m.tx.data is None <==> rlp_payload(item(6), usize::BITS)->Ok_0.len() == 0
            &&& m.tx.data matches Some(data) ==> data == rlp_payload(item(6), usize::BITS)->Ok_0
            &&& rlp_h256(item(7), usize::BITS) is Ok
            &&& m.btc_tx_hash is None <==> rlp_h256(item(7), usize::BITS)->Ok_0 == Seq::new(
                32,
                |i: int| 0u8,
            )
            &&& m.btc_tx_hash matches Some(hash) ==> hash == rlp_h256(item(7), usize::BITS)->Ok_0
            &&& rlp_payload(item(8), usize::BITS) is Ok
            &&& m.public_key is None <==> (forall|i: int|
                0 <= i < key_bytes.len() ==> #[trigger] key_bytes[i] == 0)
            &&& m.public_key matches Some(key) ==> key == key_bytes
            &&& rlp_u256(item(9), usize::BITS) is Ok
            &&& m.btc_address_byte is None <==> rlp_u256(item(9), usize::BITS)->Ok_0 == 0
            &&& m.btc_address_byte matches Some(byte) ==> byte == rlp_u256(
                item(9),
                usize::BITS,
            )->Ok_0
            &&& access_list_at(raw, 10) == Ok::<Seq<AccessListItemView>, DecoderError>(
                m.access_list,
            )
        },
{
    assert forall|i: nat| i < 11 && midl_in(raw) is Ok implies (#[trigger] rlp_item_at(
        raw,
        i,
        usize::BITS,
    )) is Ok by {
        if i <= 4 {
            assert(i == 0 || i == 1 || i == 2 || i == 3 || i == 4);
        } else {
            assert(i == 5 || i == 6 || i == 7 || i == 8 || i == 9 || i == 10);
        }
    }
}

/// The error of a result, if it is one.
pub open spec fn error_of<T>(r: Result<T, DecoderError>) -> Option<DecoderError> {
    match r {
        Ok(_) => None,
        Err(e) => Some(e),
    }
}

/// Why what stands at a position of a list cannot be read as the field of a transaction, if it
/// cannot.
pub open spec fn error_at(raw: Seq<u8>, position: nat) -> Option<DecoderError> {
    match rlp_item_at(raw, position, usize::BITS) {
        Err(e) => Some(e),
        Ok(item) => if position == 0 || position == 11 {
            error_of(rlp_u64(item, usize::BITS))
        } else if position == 4 {
            if item.len() > 0 && item[0] == 0x80 {
                None
            } else {
                error_of(rlp_address(item, usize::BITS))
            }
        } else if position == 6 || position == 8 {
            error_of(rlp_payload(item, usize::BITS))
        } else if position == 7 {
            error_of(rlp_h256(item, usize::BITS))
        } else if position == 10 {
            error_of(access_list_at(raw, 10))
        } else {
            error_of(rlp_u256(item, usize::BITS))
        },
    }
}

/// A list is read if and only if each of the eleven fields can be, and else the error is that of
/// the first field that cannot.
pub proof fn law_first_error_is_told(raw: Seq<u8>, position: nat)
    requires
        position <= 11,
        forall|i: nat| i < position ==> #[trigger] error_at(raw, i) is None,
        position < 11 ==> error_at(raw, position) is Some,
    ensures
        position == 11 ==> midl_in(raw) is Ok,
        position < 11 ==> midl_in(raw) == Err::<MidlTransactionRequestView, DecoderError>(
            error_at(raw, position)->0,
        ),
{
    assert(position > 0 ==> error_at(raw, 0) is None);
    assert(position > 1 ==> error_at(raw, 1) is None);
    assert(position > 2 ==> error_at(raw, 2) is None);
    assert(position > 3 ==> error_at(raw, 3) is None);
    assert(position > 4 ==> error_at(raw, 4) is None);
    assert(position > 5 ==> error_at(raw, 5) is None);
    assert(position > 6 ==> error_at(raw, 6) is None);
    assert(position > 7 ==> error_at(raw, 7) is None);
    assert(position > 8 ==> error_at(raw, 8) is None);
    assert(position > 9 ==> error_at(raw, 9) is None);
    assert(position > 10 ==> error_at(raw, 10) is None);
}

/// The hashes that are read from a list are those at its positions, in order and all of them.
pub proof fn law_hashes_are_read_in_order(list: Seq<u8>, from: nat, i: nat)
    ensures
        hashes_from(list, from) matches Ok(hashes) ==> {
            &&& i < hashes.len() ==> rlp_item_at(list, from + i, usize::BITS) is Ok && rlp_h256(
                rlp_item_at(list, from + i, usize::BITS)->Ok_0,
                usize::BITS,
            ) == Ok::<Seq<u8>, DecoderError>(hashes[i as int])
            &&& i == hashes.len() ==> from + i >= list.len() || rlp_item_at(
                list,
                from + i,
                usize::BITS,
            ) is Err
        },
    decreases i,
{
    if i > 0 {
        law_hashes_are_read_in_order(list, from + 1, (i - 1) as nat);
        assert(from + 1 + (i - 1) as nat == from + i);
    }
}

/// A list of hashes is read up to the first position without an item, if each item before it is a
/// hash. Else the error is that of the first item that is none.
pub proof fn law_list_of_hashes_is_read_or_refused(list: Seq<u8>, from: nat, len: nat)
    requires
        forall|i: nat|
            from <= i < from + len ==> i < list.len() && (#[trigger] rlp_item_at(
                list,
                i,
                usize::BITS,
            )) is Ok && rlp_h256(rlp_item_at(list, i, usize::BITS)->Ok_0, usize::BITS) is Ok,
    ensures
        from + len >= list.len() || rlp_item_at(list, from + len, usize::BITS) is Err ==> (
        hashes_from(list, from) matches Ok(hashes) && hashes.len() == len),
        from + len < list.len() && rlp_item_at(list, from + len, usize::BITS) is Ok ==> (rlp_h256(
            rlp_item_at(list, from + len, usize::BITS)->Ok_0,
            usize::BITS,
        ) matches Err(e) ==> hashes_from(list, from) == Err::<Seq<Seq<u8>>, DecoderError>(e)),
    decreases len,
{
    if len > 0 {
        assert(rlp_item_at(list, from, usize::BITS) is Ok);
        law_list_of_hashes_is_read_or_refused(list, from + 1, (len - 1) as nat);
        assert(from + 1 + (len - 1) as nat == from + len);
    }
}

/// An access list is read up to the first position without an item, if each item before it is an
/// entry. Else the error is that of the first item that is none.
pub proof fn law_list_of_entries_is_read_or_refused(list: Seq<u8>, from: nat, len: nat)
    requires
        forall|i: nat|
            from <= i < from + len ==> i < list.len() && (#[trigger] rlp_item_at(
                list,
                i,
                usize::BITS,
            )) is Ok && decoded_entry(rlp_item_at(list, i, usize::BITS)->Ok_0) is Ok,
    ensures
        from + len >= list.len() || rlp_item_at(list, from + len, usize::BITS) is Err ==> (
        entries_from(list, from) matches Ok(found) && found.len() == len),
        from + len < list.len() && rlp_item_at(list, from + len, usize::BITS) is Ok ==> (
        decoded_entry(rlp_item_at(list, from + len, usize::BITS)->Ok_0) matches Err(e)
            ==> entries_from(list, from) == Err::<Seq<AccessListItemView>, DecoderError>(e)),
    decreases len,
{
    if len > 0 {
        assert(rlp_item_at(list, from, usize::BITS) is Ok);
        law_list_of_entries_is_read_or_refused(list, from + 1, (len - 1) as nat);
        assert(from + 1 + (len - 1) as nat == from + len);
    }
}

/// The entries that are read from a list are those at its positions, in order and all of them.
pub proof fn law_entries_are_read_in_order(list: Seq<u8>, from: nat, i: nat)
    ensures
        entries_from(list, from) matches Ok(found) ==> {
            &&& i < found.len() ==> rlp_item_at(list, from + i, usize::BITS) is Ok
                && decoded_entry(rlp_item_at(list, from + i, usize::BITS)->Ok_0) == Ok::<
                AccessListItemView,
                DecoderError,
            >(found[i as int])
            &&& i == found.len() ==> from + i >= list.len() || rlp_item_at(
                list,
                from + i,
                usize::BITS,
            ) is Err
        },
    decreases i,
{
    if i > 0 {
        law_entries_are_read_in_order(list, from + 1, (i - 1) as nat);
        assert(from + 1 + (i - 1) as nat == from + i);
    }
}

/// An entry is read from its first two items: the account, and the list of storage slots.
pub proof fn law_entry_is_read(item: Seq<u8>)
    ensures
        decoded_entry(item) matches Ok(entry) ==> {
            let (first, second) = (
                rlp_item_at(item, 0, usize::BITS),
                rlp_item_at(item, 1, usize::BITS),
            );
            &&& first is Ok
            &&& second is Ok
            &&& rlp_address(first->Ok_0, usize::BITS) == Ok::<Seq<u8>, DecoderError>(entry.address)
            &&& hashes_from(second->Ok_0, 0) == Ok::<Seq<Seq<u8>>, DecoderError>(
                entry.storage_keys,
            )
        },
        decoded_entry(item) is Ok <==> {
            let (first, second) = (
                rlp_item_at(item, 0, usize::BITS),
                rlp_item_at(item, 1, usize::BITS),
            );
            &&& first is Ok
            &&& rlp_address(first->Ok_0, usize::BITS) is Ok
            &&& second is Ok
            &&& hashes_from(second->Ok_0, 0) is Ok
        },
        error_of(decoded_entry(item)) == {
            let (first, second) = (
                rlp_item_at(item, 0, usize::BITS),
                rlp_item_at(item, 1, usize::BITS),
            );
            if first is Err {
                error_of(first)
            } else if rlp_address(first->Ok_0, usize::BITS) is Err {
                error_of(rlp_address(first->Ok_0, usize::BITS))
            } else if second is Err {
                error_of(second)
            } else {
                error_of(hashes_from(second->Ok_0, 0))
            }
        },
{
}

/// An access list is read from the item at its position: one with an empty payload has no entries,
/// any other has those that stand in it. It is refused where there is no item, where the item has
/// no payload, and where its entries are refused.
pub proof fn law_access_list_is_read(raw: Seq<u8>, position: nat)
    ensures
        access_list_at(raw, position) matches Ok(list) ==> {
            let item = rlp_item_at(raw, position, usize::BITS);
            &&& item is Ok
            &&& rlp_payload(item->Ok_0, usize::BITS) is Ok
            &&& rlp_payload(item->Ok_0, usize::BITS)->Ok_0.len() == 0 ==> list.len() == 0
            &&& rlp_payload(item->Ok_0, usize::BITS)->Ok_0.len() > 0 ==> entries_from(
                item->Ok_0,
                0,
            ) == Ok::<Seq<AccessListItemView>, DecoderError>(list)
        },
        access_list_at(raw, position) matches Err(e) ==> {
            let item = rlp_item_at(raw, position, usize::BITS);
            ||| item == Err::<Seq<u8>, DecoderError>(e)
            ||| item is Ok && rlp_payload(item->Ok_0, usize::BITS) == Err::<Seq<u8>, DecoderError>(
                e,
            )
            ||| item is Ok && entries_from(item->Ok_0, 0) == Err::<
                Seq<AccessListItemView>,
                DecoderError,
            >(e) && (rlp_payload(item->Ok_0, usize::BITS) matches Ok(content) && content.len() > 0)
        },
{
}

/// A signature is read from the three positions behind the fields: the recovery value and both
/// halves. It is read if and only if all three can be, and else the error is that of the first that
/// cannot.
pub proof fn law_signature_is_read(raw: Seq<u8>)
    ensures
        signature_in(raw) matches Ok(sig) ==> {
            let item = |i: nat| rlp_item_at(raw, i, usize::BITS)->Ok_0;
            &&& rlp_u64(item(11), usize::BITS) == Ok::<u64, DecoderError>(sig.v)
            &&& rlp_u256(item(12), usize::BITS) == Ok::<nat, DecoderError>(sig.r)
            &&& rlp_u256(item(13), usize::BITS) == Ok::<nat, DecoderError>(sig.s)
        },
        error_of(signature_in(raw)) == (if error_at(raw, 11) is Some {
            error_at(raw, 11)
        } else if error_at(raw, 12) is Some {
            error_at(raw, 12)
        } else {
            error_at(raw, 13)
        }),
{
}

/// A signed transaction is the transaction and the signature that stand in the list, with a sender.
/// The sender is the account that the signature leads to over the hash of the byte 0x07 and the
/// unsigned encoding of the very transaction.
pub proof fn law_sender_is_the_signer(raw: Seq<u8>)
    ensures
        signed_midl_in(raw) matches Ok((m, sig)) ==> {
            let unsent = MidlTransactionRequestView {
                tx: TransactionRequestView { from: None, ..m.tx },
                ..m
            };
            &&& midl_in(raw) == Ok::<MidlTransactionRequestView, DecoderError>(unsent)
            &&& signature_in(raw) == Ok::<SignatureView, DecoderError>(sig)
            &&& m.tx.from is Some
            &&& recovered_address(keccak256_digest(seq![0x07u8] + midl_rlp(m)), sig) == Ok::<
                Seq<u8>,
                SignatureError,
            >(m.tx.from->0)
        },
{
    if let Ok((m, sig)) = signed_midl_in(raw) {
        law_sender_is_not_encoded(m, None, sig);
        let unsent = MidlTransactionRequestView {
            tx: TransactionRequestView { from: None, ..m.tx },
            ..m
        };
        assert(midl_in(raw)->Ok_0 =~= unsent);
    }
}

/// A list from which transaction and signature can be read is refused only where the signature
/// leads to no account; any other list is refused for the first thing that cannot be read.
pub proof fn law_refusals_of_signed_transactions(raw: Seq<u8>)
    ensures
        midl_in(raw) matches Err(e) ==> signed_midl_in(raw) == Err::<
            (MidlTransactionRequestView, SignatureView),
            MidlRequestError,
        >(MidlRequestError::DecodingError(e)),
        midl_in(raw) is Ok ==> (signature_in(raw) matches Err(e) ==> signed_midl_in(raw) == Err::<
            (MidlTransactionRequestView, SignatureView),
            MidlRequestError,
        >(MidlRequestError::DecodingError(e))),
        midl_in(raw) is Ok && signature_in(raw) is Ok ==> {
            let (m, sig) = (midl_in(raw)->Ok_0, signature_in(raw)->Ok_0);
            let signer = recovered_address(keccak256_digest(seq![0x07u8] + midl_rlp(m)), sig);
            &&& signer is Ok <==> signed_midl_in(raw) is Ok
            &&& signer matches Err(e) ==> signed_midl_in(raw) == Err::<
                (MidlTransactionRequestView, SignatureView),
                MidlRequestError,
            >(MidlRequestError::RecoveryError(e))
        },
{
}

/// To look for the signer fills in the sender and leaves all else alone.
pub proof fn law_signer_becomes_the_sender(
    m: MidlTransactionRequestView,
    sig: SignatureView,
    address: Seq<u8>,
    e: SignatureError,
)
    ensures
        signed_by(m, sig, Ok(address)) == Ok::<
            (MidlTransactionRequestView, SignatureView),
            MidlRequestError,
        >(
            (
                MidlTransactionRequestView {
                    tx: TransactionRequestView { from: Some(address), ..m.tx },
                    ..m
                },
                sig,
            ),
        ),
        signed_by(m, sig, Err(e)) == Err::<
            (MidlTransactionRequestView, SignatureView),
            MidlRequestError,
        >(MidlRequestError::RecoveryError(e)),
{
}

/// A request that is made a Midl transaction keeps all it has and gets nothing new; an empty one
/// has nothing at all.
pub proof fn law_new_request(tx: TransactionRequest)
    ensures
        plain_midl(tx@).tx == tx@,
        plain_midl(tx@).btc_tx_hash is None,
        plain_midl(tx@).public_key is None,
        plain_midl(tx@).btc_address_byte is None,
        plain_midl(tx@).access_list.len() == 0,
        empty_request().from is None,
        empty_request().to is None,
        empty_request().gas is None,
        empty_request().gas_price is None,
        empty_request().value is None,
        empty_request().data is None,
        empty_request().nonce is None,
        empty_request().chain_id is None,
{
}

/// A transaction of the chain gives each of its fields to the request that is made of it.
pub proof fn law_chain_transaction(tx: Transaction)
    ensures
        ({
            let m = midl_of(tx);
            &&& m.tx.from == Some(tx.from@)
            &&& tx.to matches Some(to) ==> m.tx.to == Some(NameOrAddressView::Address(to@))
            &&& tx.to is None ==> m.tx.to is None
            &&& m.tx.gas == Some(tx.gas@)
            &&& tx.gas_price matches Some(price) ==> m.tx.gas_price == Some(price@)
            &&& tx.gas_price is None ==> m.tx.gas_price is None
            &&& m.tx.value == Some(tx.value@)
            &&& m.tx.data == Some(tx.input@)
            &&& m.tx.nonce == Some(tx.nonce@)
            &&& m.tx.chain_id == tx.chain_id
            &&& tx.btc_tx_hash matches Some(hash) ==> m.btc_tx_hash == Some(hash@)
            &&& tx.btc_tx_hash is None ==> m.btc_tx_hash is None
            &&& tx.public_key matches Some(key) ==> m.public_key == Some(key@)
            &&& tx.public_key is None ==> m.public_key is None
            &&& tx.btc_address_byte matches Some(byte) ==> m.btc_address_byte == Some(byte@)
            &&& tx.btc_address_byte is None ==> m.btc_address_byte is None
            &&& tx.access_list matches Some(list) ==> m.access_list == list@
            &&& tx.access_list is None ==> m.access_list.len() == 0
        }),
{
}

} // verus!
