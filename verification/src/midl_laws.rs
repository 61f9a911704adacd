//! What writing and reading Midl transactions have to do with each other.

use crate::decoding::{all_readable, readable_entry};
use crate::encoding::{access_list_field, base_fields, entries, entry_field, entry_fields, strings};
use crate::midl::{
    all_zero, midl_fields, midl_rlp, midl_signed_rlp, midl_typed_rlp, zeros, MidlTransactionRequest,
    MidlTransactionRequestView, MIDL_TYPE, PUBLIC_KEY_LENGTH,
};
use crate::midl_decoding::{lemma_field_facts, lemma_readable, uint_fields};
use crate::midl_signed::signer_of;
use crate::rlp_format::{
    big_endian, concat, is_rlp_list_of, lemma_part_of_concat, length_modulus, rlp_string,
};
use crate::rlp_laws::{
    law_list_items_are_unique, law_measurable_list_is_told_apart, law_payload_is_unique,
    law_string_encoding_is_injective, law_uint_encoding_is_injective,
};
use crate::signature::SignatureView;
use crate::transaction::{AccessListItemView, NameOrAddressView, TransactionRequestView};
use vstd::prelude::*;

verus! {

/// The canonical form is stable: to take it twice is to take it once.
pub proof fn law_canonical_is_stable(m: MidlTransactionRequestView)
    ensures
        m.canonical().canonical() == m.canonical(),
{
    assert(all_zero(zeros(PUBLIC_KEY_LENGTH as nat)));
    assert(m.canonical().canonical() =~= m.canonical());
}

/// A transaction and its canonical form have the same encoding, so what was decoded is
/// encoded again byte for byte. A public key of zeros must have the usual length for that:
/// another one is taken for an absent key, which is written at the usual length.
pub proof fn law_canonical_keeps_encoding(m: MidlTransactionRequestView)
    requires
        m.is_resolved(),
        all_zero(m.normalized_public_key()) ==> m.normalized_public_key().len()
            == PUBLIC_KEY_LENGTH,
    ensures
        midl_rlp(m.canonical()) == midl_rlp(m),
        midl_typed_rlp(m.canonical()) == midl_typed_rlp(m),
{
    let c = m.canonical();
    assert(big_endian(0) =~= Seq::empty());
    if all_zero(m.normalized_public_key()) {
        assert(m.normalized_public_key() =~= zeros(PUBLIC_KEY_LENGTH as nat));
    }
    assert(c.normalized_public_key() == m.normalized_public_key());
    assert(c.normalized_btc_tx_hash() == m.normalized_btc_tx_hash());
    match m.tx.data {
        Some(data) => {
            if data.len() == 0 {
                assert(data =~= Seq::empty());
            }
        },
        None => {},
    }
    assert(base_fields(c.normalized_tx()) =~= base_fields(m.normalized_tx()));
    assert(midl_fields(c) =~= midl_fields(m));
}

/// A transaction that was signed, encoded and read back has the signer whom its signature
/// names for the transaction as it was before.
pub proof fn law_signer_survives_decoding(m: MidlTransactionRequestView, sig: SignatureView)
    requires
        m.is_resolved(),
        all_zero(m.normalized_public_key()) ==> m.normalized_public_key().len()
            == PUBLIC_KEY_LENGTH,
    ensures
        signer_of(m.canonical(), sig) == signer_of(m, sig),
{
    law_canonical_keeps_encoding(m);
}

/// The sender is no part of what is signed: filling it in changes no encoding.
pub proof fn law_sender_is_not_encoded(
    m: MidlTransactionRequestView,
    from: Option<Seq<u8>>,
    sig: SignatureView,
)
    ensures
        ({
            let other = MidlTransactionRequestView {
                tx: TransactionRequestView { from, ..m.tx },
                ..m
            };
            &&& midl_rlp(other) == midl_rlp(m)
            &&& midl_signed_rlp(other, sig) == midl_signed_rlp(m, sig)
        }),
{
    let other = MidlTransactionRequestView { tx: TransactionRequestView { from, ..m.tx }, ..m };
    assert(base_fields(other.normalized_tx()) =~= base_fields(m.normalized_tx()));
    assert(midl_fields(other) =~= midl_fields(m));
}

/// An encoding with the type in front of it begins with the type of Midl transactions.
pub proof fn law_type_comes_first(m: MidlTransactionRequestView)
    ensures
        midl_typed_rlp(m)[0] == MIDL_TYPE,
        midl_typed_rlp(m).skip(1) == midl_rlp(m),
{
    assert(midl_typed_rlp(m).skip(1) =~= midl_rlp(m));
}

/// A transaction without its own fields is written as one with zeros in them: the zero hash,
/// a key of zeros at the usual length and the address byte 0.
pub proof fn law_absent_is_zero(m: MidlTransactionRequestView)
    ensures
        midl_rlp(MidlTransactionRequestView {
            btc_tx_hash: None,
            public_key: None,
            btc_address_byte: None,
            ..m
        }) == midl_rlp(MidlTransactionRequestView {
            btc_tx_hash: Some(zeros(32)),
            public_key: Some(zeros(PUBLIC_KEY_LENGTH as nat)),
            btc_address_byte: Some(0),
            ..m
        }),
{
    let a = MidlTransactionRequestView {
        btc_tx_hash: None,
        public_key: None,
        btc_address_byte: None,
        ..m
    };
    let b = MidlTransactionRequestView {
        btc_tx_hash: Some(zeros(32)),
        public_key: Some(zeros(PUBLIC_KEY_LENGTH as nat)),
        btc_address_byte: Some(0),
        ..m
    };
    assert(a.normalized_tx() == b.normalized_tx());
    assert(midl_fields(a) =~= midl_fields(b));
}

/// Readable access lists with the same encoding are the same.
proof fn lemma_access_list_injective(a: Seq<AccessListItemView>, b: Seq<AccessListItemView>)
    requires
        access_list_field(a) == access_list_field(b),
        is_rlp_list_of(access_list_field(a), entries(a)),
        is_rlp_list_of(access_list_field(b), entries(b)),
        all_readable(a),
        all_readable(b),
    ensures
        a == b,
{
    law_list_items_are_unique(access_list_field(a), entries(a), entries(b));
    assert(a.len() == entries(a).len());
    assert forall|i: int| 0 <= i < a.len() implies a[i] == b[i] by {
        assert(entries(a)[i] == entry_field(a[i]));
        assert(entries(b)[i] == entry_field(b[i]));
        assert(readable_entry(a[i]) && readable_entry(b[i]));
        lemma_entry_injective(a[i], b[i]);
    }
    assert(a =~= b);
}

/// Readable access list entries with the same encoding are the same.
proof fn lemma_entry_injective(a: AccessListItemView, b: AccessListItemView)
    requires
        entry_field(a) == entry_field(b),
        readable_entry(a),
        readable_entry(b),
    ensures
        a == b,
{
    law_list_items_are_unique(entry_field(a), entry_fields(a), entry_fields(b));
    assert(entry_fields(a)[0] == rlp_string(a.address));
    assert(entry_fields(b)[0] == rlp_string(b.address));
    law_string_encoding_is_injective(a.address, b.address);
    let (j, k) = (a.storage_keys, b.storage_keys);
    law_list_items_are_unique(entry_fields(a)[1], strings(j), strings(k));
    assert(j.len() == strings(j).len());
    assert forall|i: int| 0 <= i < j.len() implies j[i] == k[i] by {
        assert(strings(j)[i] == rlp_string(j[i]));
        assert(strings(k)[i] == rlp_string(k[i]));
        law_string_encoding_is_injective(j[i], k[i]);
    }
    assert(j =~= k);
}

/// The encoding determines the request up to its canonical form: two requests that go to
/// accounts and have the same encoding say the same. (A payload of 4 GiB or more has a length
/// that its header cannot hold.)
pub proof fn law_encoding_determines_request(a: MidlTransactionRequest, b: MidlTransactionRequest)
    requires
        a@.is_resolved(),
        b@.is_resolved(),
        midl_rlp(a@) == midl_rlp(b@),
        concat(midl_fields(a@)).len() < length_modulus(),
    ensures
        a@.canonical() == b@.canonical(),
{
    let (m, n) = (a@, b@);
    let none = Seq::<nat>::empty();
    assert(midl_fields(m) + uint_fields(none) =~= midl_fields(m));
    assert(midl_fields(n) + uint_fields(none) =~= midl_fields(n));
    law_measurable_list_is_told_apart(concat(midl_fields(m)), concat(midl_fields(n)));
    lemma_readable(a, none);
    lemma_readable(b, none);
    law_list_items_are_unique(midl_rlp(m), midl_fields(m), midl_fields(n));
    let items = midl_fields(m);
    assert(items.take(11) =~= items);
    lemma_field_facts(items, m);
    lemma_field_facts(items, n);
    lemma_part_of_concat(items, 0);
    lemma_part_of_concat(items, 1);
    lemma_part_of_concat(items, 2);
    lemma_part_of_concat(items, 3);
    lemma_part_of_concat(items, 5);
    lemma_part_of_concat(items, 9);
    let (t, u) = (m.canonical().tx, n.canonical().tx);
    law_uint_encoding_is_injective(t.chain_id->0 as nat, u.chain_id->0 as nat);
    law_uint_encoding_is_injective(t.nonce->0, u.nonce->0);
    law_uint_encoding_is_injective(t.gas_price->0, u.gas_price->0);
    law_uint_encoding_is_injective(t.gas->0, u.gas->0);
    law_string_encoding_is_injective(recipient_bytes(m), recipient_bytes(n));
    law_uint_encoding_is_injective(t.value->0, u.value->0);
    law_payload_is_unique(items[6], data_bytes(m), data_bytes(n));
    law_string_encoding_is_injective(m.normalized_btc_tx_hash(), n.normalized_btc_tx_hash());
    law_payload_is_unique(items[8], m.normalized_public_key(), n.normalized_public_key());
    law_uint_encoding_is_injective(
        m.normalized_btc_address_byte(),
        n.normalized_btc_address_byte(),
    );
    lemma_access_list_injective(m.access_list, n.access_list);
    assert(m.canonical() =~= n.canonical());
}

/// The bytes of a resolved recipient; an absent one has none.
spec fn recipient_bytes(m: MidlTransactionRequestView) -> Seq<u8> {
    match m.tx.to {
        Some(NameOrAddressView::Address(address)) => address,
        _ => Seq::empty(),
    }
}

/// The data; where it is absent there is none.
spec fn data_bytes(m: MidlTransactionRequestView) -> Seq<u8> {
    match m.tx.data {
        Some(data) => data,
        None => Seq::empty(),
    }
}

} // verus!
