//! Reading Midl transactions, unsigned and signed.

use crate::codec::{gives, result_view};
use crate::decoding::{
    access_list_at, all_readable, h256_at, payload_at, read_access_list, read_h256, read_payload,
    read_recipient, read_u256, read_u64, readable_entry, recipient_at, u256_at, u64_at,
};
use crate::encoding::{
    access_list_field, base_fields, entries, entry_field, entry_fields, opt_uint_field, strings,
};
use crate::midl::{
    all_zero, is_zero_bytes, midl_fields, midl_rlp, midl_signed_fields, midl_signed_rlp, zeros,
    MidlTransactionRequest, MidlTransactionRequestView, MIDL_DEFAULT_GAS_LIMIT, NUM_MIDL_FIELDS,
};
use crate::primitives::{
    lemma_address_injective, lemma_hash_injective, lemma_u256_injective, opt_view, u256_bound,
    Address, Bytes, H256, U256,
};
use crate::rlp_format::{
    big_endian, concat, has_payload, is_rlp_item, is_rlp_list_of, lemma_list_item,
    lemma_part_of_concat, lemma_string_item, length_modulus, rlp_list, rlp_string, rlp_uint,
};
use crate::signature::{normalized_v, Signature, SignatureView};
use crate::transaction::{
    AccessList, AccessListItemView, NameOrAddress, NameOrAddressView, TransactionRequest,
    TransactionRequestView,
};
use rlp::DecoderError;
use vstd::prelude::*;

verus! {

/// The common fields as decoding gives them: what is encoded is present, but for an absent
/// recipient and empty data. The sender is not encoded.
pub open spec fn decoded_request(
    chain_id: u64,
    nonce: nat,
    gas_price: nat,
    gas: nat,
    to: Option<Seq<u8>>,
    value: nat,
    data: Seq<u8>,
) -> TransactionRequestView {
    TransactionRequestView {
        from: None,
        to: match to {
            Some(address) => Some(NameOrAddressView::Address(address)),
            None => None,
        },
        gas: Some(gas),
        gas_price: Some(gas_price),
        value: Some(value),
        data: if data.len() == 0 {
            None
        } else {
            Some(data)
        },
        nonce: Some(nonce),
        chain_id: Some(chain_id),
    }
}

/// A Midl transaction as decoding gives it: of the fields that it adds, one that is all
/// zeros stands for an absent one.
pub open spec fn decoded_midl(
    tx: TransactionRequestView,
    btc_tx_hash: Seq<u8>,
    public_key: Seq<u8>,
    btc_address_byte: nat,
    access_list: Seq<AccessListItemView>,
) -> MidlTransactionRequestView {
    MidlTransactionRequestView {
        tx,
        btc_tx_hash: if btc_tx_hash == zeros(32) {
            None
        } else {
            Some(btc_tx_hash)
        },
        public_key: if all_zero(public_key) {
            None
        } else {
            Some(public_key)
        },
        btc_address_byte: if btc_address_byte == 0 {
            None
        } else {
            Some(btc_address_byte)
        },
        access_list,
    }
}

/// The six common fields at the positions 1 to 6 of a list, or the error of the first that
/// cannot be read.
pub open spec fn request_in(raw: Seq<u8>, chain_id: u64) -> Result<
    TransactionRequestView,
    DecoderError,
> {
    let nonce = u256_at(raw, 1);
    let gas_price = u256_at(raw, 2);
    let gas = u256_at(raw, 3);
    let to = recipient_at(raw, 4);
    let value = u256_at(raw, 5);
    let data = payload_at(raw, 6);
    if nonce is Err {
        Err(nonce->Err_0)
    } else if gas_price is Err {
        Err(gas_price->Err_0)
    } else if gas is Err {
        Err(gas->Err_0)
    } else if to is Err {
        Err(to->Err_0)
    } else if value is Err {
        Err(value->Err_0)
    } else if data is Err {
        Err(data->Err_0)
    } else {
        Ok(
            decoded_request(
                chain_id,
                nonce->Ok_0,
                gas_price->Ok_0,
                gas->Ok_0,
                to->Ok_0,
                value->Ok_0,
                data->Ok_0,
            ),
        )
    }
}

/// The Midl transaction in a list, or the error of the first field that cannot be read.
pub open spec fn midl_in(raw: Seq<u8>) -> Result<MidlTransactionRequestView, DecoderError> {
    let chain_id = u64_at(raw, 0);
    let request = request_in(raw, chain_id->Ok_0);
    let btc_tx_hash = h256_at(raw, 7);
    let public_key = payload_at(raw, 8);
    let btc_address_byte = u256_at(raw, 9);
    let access_list = access_list_at(raw, 10);
    if chain_id is Err {
        Err(chain_id->Err_0)
    } else if request is Err {
        Err(request->Err_0)
    } else if btc_tx_hash is Err {
        Err(btc_tx_hash->Err_0)
    } else if public_key is Err {
        Err(public_key->Err_0)
    } else if btc_address_byte is Err {
        Err(btc_address_byte->Err_0)
    } else if access_list is Err {
        Err(access_list->Err_0)
    } else {
        Ok(
            decoded_midl(
                request->Ok_0,
                btc_tx_hash->Ok_0,
                public_key->Ok_0,
                btc_address_byte->Ok_0,
                access_list->Ok_0,
            ),
        )
    }
}

impl MidlTransactionRequestView {
    /// What an encoding of this transaction is read back as: defaults are filled in, zeros
    /// stand for absent fields, and the sender is lost.
    pub open spec fn canonical(self) -> MidlTransactionRequestView {
        let tx = self.normalized_tx();
        decoded_midl(
            decoded_request(
                self.normalized_chain_id(),
                opt_or_zero(tx.nonce),
                tx.gas_price->0,
                tx.gas->0,
                match tx.to {
                    Some(NameOrAddressView::Address(address)) => Some(address),
                    _ => None,
                },
                opt_or_zero(tx.value),
                match tx.data {
                    Some(data) => data,
                    None => Seq::empty(),
                },
            ),
            self.normalized_btc_tx_hash(),
            self.normalized_public_key(),
            self.normalized_btc_address_byte(),
            self.access_list,
        )
    }

    /// Whether the recipient, if there is one, is an account and no name.
    pub open spec fn is_resolved(self) -> bool {
        !(self.tx.to matches Some(NameOrAddressView::Name(_)))
    }

    /// Whether the fields have the widths that their types give them, and an access list
    /// that can be read.
    pub open spec fn is_readable(self) -> bool {
        &&& opt_or_zero(self.tx.nonce) < u256_bound()
        &&& self.normalized_tx().gas->0 < u256_bound()
        &&& self.normalized_tx().gas_price->0 < u256_bound()
        &&& self.is_resolved()
        &&& self.tx.to matches Some(NameOrAddressView::Address(address)) ==> address.len() == 20
        &&& opt_or_zero(self.tx.value) < u256_bound()
        &&& self.normalized_btc_tx_hash().len() == 32
        &&& self.normalized_btc_address_byte() < u256_bound()
        &&& is_rlp_list_of(access_list_field(self.access_list), entries(self.access_list))
        &&& all_readable(self.access_list)
    }
}

/// An optional integer, 0 where it is absent.
pub open spec fn opt_or_zero(v: Option<nat>) -> nat {
    match v {
        Some(n) => n,
        None => 0,
    }
}

impl TransactionRequest {
    /// The common fields that were decoded one by one, put together.
    pub fn from_decoded(
        chain_id: u64,
        nonce: U256,
        gas_price: U256,
        gas: U256,
        to: Option<Address>,
        value: U256,
        data: Bytes,
    ) -> (r: TransactionRequest)
        ensures
            r@ == decoded_request(
                chain_id,
                nonce@,
                gas_price@,
                gas@,
                opt_view(to),
                value@,
                data@,
            ),
    {
        TransactionRequest {
            from: None,
            to: match to {
                Some(address) => Some(NameOrAddress::Address(address)),
                None => None,
            },
            gas: Some(gas),
            gas_price: Some(gas_price),
            value: Some(value),
            data: if data.0.len() == 0 {
                None
            } else {
                Some(data)
            },
            nonce: Some(nonce),
            chain_id: Some(chain_id),
        }
    }

    /// Reads the six common fields at the positions 1 to 6.
    pub(crate) fn decode_unsigned_rlp_base(rlp: &[u8], chain_id: u64) -> (r: Result<
        TransactionRequest,
        DecoderError,
    >)
        ensures
            result_view(r) == request_in(rlp@, chain_id),
            forall|items: Seq<Seq<u8>>, m: MidlTransactionRequestView|
                #![trigger is_rlp_list_of(rlp@, items), midl_fields(m)]
                is_rlp_list_of(rlp@, items) && items.len() >= 11 && items.take(11) == midl_fields(m)
                    && m.is_readable() && m.normalized_chain_id() == chain_id ==> gives(
                    r,
                    m.canonical().tx,
                ),
    {
        proof {
            assert forall|items: Seq<Seq<u8>>, m: MidlTransactionRequestView|
                #![trigger is_rlp_list_of(rlp@, items), midl_fields(m)]
                is_rlp_list_of(rlp@, items) && items.len() >= 11 && items.take(11) == midl_fields(m)
                    && m.is_readable() implies field_facts(items, m) by {
                lemma_field_facts(items, m);
            }
        }
        let nonce = match read_u256(rlp, 1) {
            Ok(v) => v,
            Err(e) => {
                return Err(e);
            },
        };
        let gas_price = match read_u256(rlp, 2) {
            Ok(v) => v,
            Err(e) => {
                return Err(e);
            },
        };
        let gas = match read_u256(rlp, 3) {
            Ok(v) => v,
            Err(e) => {
                return Err(e);
            },
        };
        let to = match read_recipient(rlp, 4) {
            Ok(v) => v,
            Err(e) => {
                return Err(e);
            },
        };
        let value = match read_u256(rlp, 5) {
            Ok(v) => v,
            Err(e) => {
                return Err(e);
            },
        };
        let data = match read_payload(rlp, 6) {
            Ok(v) => v,
            Err(e) => {
                return Err(e);
            },
        };
        Ok(TransactionRequest::from_decoded(chain_id, nonce, gas_price, gas, to, value, data))
    }
}

/// What stands at each position of a list that begins with a transaction's fields.
pub open spec fn field_facts(items: Seq<Seq<u8>>, m: MidlTransactionRequestView) -> bool {
    let tx = m.normalized_tx();
    let to = match tx.to {
        Some(NameOrAddressView::Address(address)) => address,
        _ => Seq::empty(),
    };
    let data = match tx.data {
        Some(data) => data,
        None => Seq::empty(),
    };
    &&& items[0] == rlp_uint(m.normalized_chain_id() as nat)
    &&& items[1] == rlp_uint(opt_or_zero(tx.nonce))
    &&& items[2] == rlp_uint(tx.gas_price->0)
    &&& items[3] == rlp_uint(tx.gas->0)
    &&& items[4] == rlp_string(to)
    &&& items[5] == rlp_uint(opt_or_zero(tx.value))
    &&& has_payload(items[6], data)
    &&& items[7] == rlp_string(m.normalized_btc_tx_hash())
    &&& has_payload(items[8], m.normalized_public_key())
    &&& items[9] == rlp_uint(m.normalized_btc_address_byte())
    &&& items[10] == access_list_field(m.access_list)
}

/// The fields of a transaction, position by position.
pub proof fn lemma_field_facts(items: Seq<Seq<u8>>, m: MidlTransactionRequestView)
    requires
        items.len() >= 11,
        items.take(11) == midl_fields(m),
        forall|i: int| 0 <= i < items.len() ==> is_rlp_item(#[trigger] items[i]),
        concat(items).len() < length_modulus(),
        m.is_readable(),
    ensures
        field_facts(items, m),
{
    let fields = midl_fields(m);
    assert forall|i: int| 0 <= i < 11 implies items[i] == #[trigger] fields[i] by {
        assert(items.take(11)[i] == items[i]);
    }
    assert(fields[0] == rlp_uint(m.normalized_chain_id() as nat));
    assert forall|i: int| 0 <= i < 6 implies fields[i + 1] == #[trigger] base_fields(
        m.normalized_tx(),
    )[i] by {}
    assert(items[1] == base_fields(m.normalized_tx())[0]);
    assert(items[2] == base_fields(m.normalized_tx())[1]);
    assert(items[3] == base_fields(m.normalized_tx())[2]);
    assert(items[4] == base_fields(m.normalized_tx())[3]);
    assert(items[5] == base_fields(m.normalized_tx())[4]);
    assert(items[6] == base_fields(m.normalized_tx())[5]);
    assert(big_endian(0) =~= Seq::empty());
    lemma_part_of_concat(items, 6);
    lemma_part_of_concat(items, 8);
    lemma_string_item(
        match m.tx.data {
            Some(data) => data,
            None => Seq::empty(),
        },
    );
    assert(items[7] == fields[7]);
    assert(items[8] == fields[8]);
    assert(items[9] == fields[9]);
    assert(items[10] == fields[10]);
    lemma_string_item(m.normalized_public_key());
}

/// An access list whose encoding can be measured can be read.
proof fn lemma_access_list_readable(list: AccessList)
    requires
        access_list_field(list@).len() < length_modulus(),
    ensures
        is_rlp_list_of(access_list_field(list@), entries(list@)),
        all_readable(list@),
{
    let model = list@;
    assert forall|i: int| 0 <= i < model.len() implies readable_entry(#[trigger] model[i])
        && is_rlp_item(entries(model)[i]) by {
        let entry = model[i];
        lemma_part_of_concat(entries(model), i);
        assert(entries(model)[i] == entry_field(entry));
        lemma_list_item(concat(entry_fields(entry)));
        lemma_part_of_concat(entry_fields(entry), 0);
        lemma_part_of_concat(entry_fields(entry), 1);
        lemma_string_item(entry.address);
        lemma_list_item(concat(strings(entry.storage_keys)));
        lemma_address_injective(list.0@[i].address, list.0@[i].address);
        assert forall|k: int| 0 <= k < entry.storage_keys.len() implies (
        #[trigger] entry.storage_keys[k]).len() == 32 && is_rlp_item(
            strings(entry.storage_keys)[k],
        ) by {
            let key = list.0@[i].storage_keys@[k];
            lemma_hash_injective(key, key);
            lemma_part_of_concat(strings(entry.storage_keys), k);
            lemma_string_item(entry.storage_keys[k]);
        }
    }
}

/// A request that goes to an account, and whose fields can be measured, can be read back.
/// That holds too where up to three integers follow its fields.
pub proof fn lemma_readable(x: MidlTransactionRequest, tail: Seq<nat>)
    requires
        x@.is_resolved(),
        concat(midl_fields(x@) + uint_fields(tail)).len() < length_modulus(),
    ensures
        x@.is_readable(),
        is_rlp_list_of(
            rlp_list(concat(midl_fields(x@) + uint_fields(tail))),
            midl_fields(x@) + uint_fields(tail),
        ),
        (midl_fields(x@) + uint_fields(tail)).take(11) == midl_fields(x@),
{
    let m = x@;
    let fields = midl_fields(m);
    let items = fields + uint_fields(tail);
    assert(items.take(11) =~= fields);
    lemma_opt_u256_width(x.tx.nonce);
    lemma_opt_u256_width(x.tx.gas);
    lemma_opt_u256_width(x.tx.gas_price);
    lemma_opt_u256_width(x.tx.value);
    lemma_opt_u256_width(x.btc_address_byte);
    if let Some(NameOrAddress::Address(address)) = x.tx.to {
        lemma_address_injective(address, address);
    }
    if let Some(hash) = x.btc_tx_hash {
        lemma_hash_injective(hash, hash);
    }
    lemma_part_of_concat(items, 10);
    assert(items[10] == fields[10]);
    lemma_access_list_readable(x.access_list);
    let base = base_fields(m.normalized_tx());
    assert forall|i: int| 0 <= i < items.len() implies is_rlp_item(#[trigger] items[i]) by {
        lemma_part_of_concat(items, i);
        if i >= 11 {
            lemma_string_item(big_endian(tail[i - 11]));
        } else if i == 0 {
            lemma_string_item(big_endian(m.normalized_chain_id() as nat));
        } else if i <= 6 {
            assert(items[i] == base[i - 1]);
            lemma_base_item(m, i - 1);
        } else if i == 7 {
            lemma_string_item(m.normalized_btc_tx_hash());
        } else if i == 8 {
            lemma_string_item(m.normalized_public_key());
        } else if i == 9 {
            lemma_string_item(big_endian(m.normalized_btc_address_byte()));
        } else {
            lemma_list_item(concat(entries(m.access_list)));
        }
    }
}

/// The integers that stand behind the fields of a signed transaction.
pub open spec fn signature_uints(m: MidlTransactionRequestView, sig: SignatureView) -> Seq<nat> {
    seq![normalized_v(sig.v, m.normalized_chain_id()) as nat, sig.r, sig.s]
}

/// Integers, each encoded.
pub open spec fn uint_fields(v: Seq<nat>) -> Seq<Seq<u8>> {
    Seq::new(v.len(), |i: int| rlp_uint(v[i]))
}

/// A present integer is as wide as its type.
proof fn lemma_opt_u256_width(v: Option<U256>)
    ensures
        opt_or_zero(opt_view(v)) < u256_bound(),
        MIDL_DEFAULT_GAS_LIMIT < u256_bound(),
{
    let zero = U256([0, 0, 0, 0]);
    lemma_u256_injective(zero, zero);
    if let Some(n) = v {
        lemma_u256_injective(n, n);
    }
    assert(u256_bound() >= 0x1_0000_0000_0000_0000) by (nonlinear_arith);
}

/// Each of the six common fields of a request with a resolved recipient is an item.
proof fn lemma_base_item(m: MidlTransactionRequestView, i: int)
    requires
        0 <= i < 6,
        m.is_resolved(),
        base_fields(m.normalized_tx())[i].len() < length_modulus(),
    ensures
        is_rlp_item(base_fields(m.normalized_tx())[i]),
{
    let tx = m.normalized_tx();
    let item = base_fields(tx)[i];
    if i == 3 {
        match tx.to {
            Some(NameOrAddressView::Address(address)) => {
                lemma_string_item(address);
            },
            _ => {
                lemma_string_item(Seq::empty());
            },
        }
    } else if i == 5 {
        match tx.data {
            Some(data) => {
                lemma_string_item(data);
            },
            None => {
                lemma_string_item(Seq::empty());
            },
        }
    } else {
        let n = if i == 0 {
            tx.nonce
        } else if i == 1 {
            tx.gas_price
        } else if i == 2 {
            tx.gas
        } else {
            tx.value
        };
        assert(item == opt_uint_field(n));
        match n {
            Some(v) => {
                lemma_string_item(big_endian(v));
            },
            None => {
                lemma_string_item(Seq::empty());
            },
        }
    }
}

impl MidlTransactionRequest {
    /// The fields that were decoded one by one, put together: of those that a Midl
    /// transaction adds, one that is all zeros stands for an absent one.
    pub fn from_decoded(
        tx: TransactionRequest,
        btc_tx_hash: H256,
        public_key: Bytes,
        btc_address_byte: U256,
        access_list: AccessList,
    ) -> (r: MidlTransactionRequest)
        ensures
            r@ == decoded_midl(
                tx@,
                btc_tx_hash@,
                public_key@,
                btc_address_byte@,
                access_list@,
            ),
    {
        let zero = H256::zero();
        proof {
            lemma_hash_injective(btc_tx_hash, zero);
            assert(zero@ =~= zeros(32));
        }
        MidlTransactionRequest {
            tx,
            btc_tx_hash: if btc_tx_hash != zero {
                Some(btc_tx_hash)
            } else {
                None
            },
            public_key: if !is_zero_bytes(&public_key) {
                Some(public_key)
            } else {
                None
            },
            btc_address_byte: if !btc_address_byte.is_zero() {
                Some(btc_address_byte)
            } else {
                None
            },
            access_list,
        }
    }

    /// Reads the fields of the unsigned transaction, at the first eleven positions.
    pub(crate) fn decode_base_rlp(rlp: &[u8]) -> (r: Result<MidlTransactionRequest, DecoderError>)
        ensures
            result_view(r) == midl_in(rlp@),
            forall|items: Seq<Seq<u8>>, m: MidlTransactionRequestView|
                #![trigger is_rlp_list_of(rlp@, items), midl_fields(m)]
                is_rlp_list_of(rlp@, items) && items.len() >= 11 && items.take(11) == midl_fields(m)
                    && m.is_readable() ==> gives(r, m.canonical()),
            forall|items: Seq<Seq<u8>>| #[trigger]
                is_rlp_list_of(rlp@, items) && items.len() < NUM_MIDL_FIELDS ==> r is Err,
    {
        proof {
            assert forall|items: Seq<Seq<u8>>, m: MidlTransactionRequestView|
                #![trigger is_rlp_list_of(rlp@, items), midl_fields(m)]
                is_rlp_list_of(rlp@, items) && items.len() >= 11 && items.take(11) == midl_fields(m)
                    && m.is_readable() implies field_facts(items, m) by {
                lemma_field_facts(items, m);
            }
        }
        let chain_id = match read_u64(rlp, 0) {
            Ok(v) => v,
            Err(e) => {
                return Err(e);
            },
        };
        let request = match TransactionRequest::decode_unsigned_rlp_base(rlp, chain_id) {
            Ok(v) => v,
            Err(e) => {
                return Err(e);
            },
        };
        let btc_tx_hash = match read_h256(rlp, 7) {
            Ok(v) => v,
            Err(e) => {
                return Err(e);
            },
        };
        let public_key = match read_payload(rlp, 8) {
            Ok(v) => v,
            Err(e) => {
                return Err(e);
            },
        };
        let btc_address_byte = match read_u256(rlp, 9) {
            Ok(v) => v,
            Err(e) => {
                return Err(e);
            },
        };
        let access_list = match read_access_list(rlp, 10) {
            Ok(v) => v,
            Err(e) => {
                return Err(e);
            },
        };
        Ok(
            MidlTransactionRequest::from_decoded(
                request,
                btc_tx_hash,
                public_key,
                btc_address_byte,
                access_list,
            ),
        )
    }

    /// Reads an unsigned transaction. What [`MidlTransactionRequest::rlp`] wrote is read back
    /// in its canonical form, and so is what [`MidlTransactionRequest::rlp_signed`] wrote: the
    /// signature behind the fields is not looked at. A list with fewer fields is refused. (A
    /// payload of 4 GiB or more has a length that its header cannot hold.)
    pub fn decode(rlp: &[u8]) -> (r: Result<MidlTransactionRequest, DecoderError>)
        ensures
            result_view(r) == midl_in(rlp@),
            forall|x: MidlTransactionRequest|
                rlp@ == #[trigger] midl_rlp(x@) && x@.is_resolved() && concat(midl_fields(x@)).len()
                    < length_modulus() ==> gives(r, x@.canonical()),
            forall|x: MidlTransactionRequest, sig: Signature|
                rlp@ == #[trigger] midl_signed_rlp(x@, sig@) && x@.is_resolved() && concat(
                    midl_signed_fields(x@, sig@),
                ).len() < length_modulus() ==> gives(r, x@.canonical()),
            forall|items: Seq<Seq<u8>>| #[trigger]
                is_rlp_list_of(rlp@, items) && items.len() < NUM_MIDL_FIELDS ==> r is Err,
    {
        let r = MidlTransactionRequest::decode_base_rlp(rlp);
        proof {
            assert forall|x: MidlTransactionRequest|
                rlp@ == #[trigger] midl_rlp(x@) && x@.is_resolved() && concat(midl_fields(x@)).len()
                    < length_modulus() implies gives(r, x@.canonical()) by {
                let none = Seq::<nat>::empty();
                assert(midl_fields(x@) + uint_fields(none) =~= midl_fields(x@));
                lemma_readable(x, none);
            }
            assert forall|x: MidlTransactionRequest, sig: Signature|
                rlp@ == #[trigger] midl_signed_rlp(x@, sig@) && x@.is_resolved() && concat(
                    midl_signed_fields(x@, sig@),
                ).len() < length_modulus() implies gives(r, x@.canonical()) by {
                let tail = signature_uints(x@, sig@);
                assert(midl_signed_fields(x@, sig@) =~= midl_fields(x@) + uint_fields(tail));
                lemma_readable(x, tail);
            }
        }
        r
    }
}

} // verus!
