//! Midl transactions (type 0x07): a transaction request that is bound to a Bitcoin
//! transaction, and its encodings.

use crate::codec::{
    append_bytes, append_u256, append_u64, begin_list, finish_stream, new_stream, stream_frames,
};
use crate::encoding::{
    access_list_field, append_items, base_fields, lemma_append_both, lemma_append_step,
    lemma_items_remain, lemma_whole_list,
};
use crate::primitives::{opt_view, Bytes, H256, U256};
use crate::rlp_format::{concat, rlp_list, rlp_string, rlp_uint};
use crate::signature::{
    can_normalize_v, keccak256, keccak256_digest, normalize_v, normalized_v, Signature,
    SignatureView,
};
use crate::transaction::{
    AccessList, AccessListItemView, TransactionRequest, TransactionRequestView,
};
use rlp::RlpStream;
use vstd::prelude::*;

verus! {

/// The number of fields of an unsigned Midl transaction.
pub const NUM_MIDL_FIELDS: usize = 11;

/// The length of a public key in bytes.
pub const PUBLIC_KEY_LENGTH: usize = 32;

/// The gas limit of a transaction that names none.
pub const MIDL_DEFAULT_GAS_LIMIT: u64 = 10_000_000;

/// The byte in front of an encoded Midl transaction.
pub const MIDL_TYPE: u8 = 0x07;

/// As many zero bytes as `len` says.
pub open spec fn zeros(len: nat) -> Seq<u8> {
    Seq::new(len, |i: int| 0u8)
}

/// Whether all bytes are 0; of no bytes that holds too.
pub open spec fn all_zero(bytes: Seq<u8>) -> bool {
    forall|i: int| 0 <= i < bytes.len() ==> bytes[i] == 0
}

/// The key that stands for an absent one.
pub fn zero_public_key() -> (r: Bytes)
    ensures
        r@ == zeros(PUBLIC_KEY_LENGTH as nat),
{
    let r = Bytes(vec![0u8; PUBLIC_KEY_LENGTH]);
    assert(r@ =~= zeros(PUBLIC_KEY_LENGTH as nat));
    r
}

/// Whether all bytes are 0; of no bytes that holds too.
pub fn is_zero_bytes(bytes: &Bytes) -> (r: bool)
    ensures
        r == all_zero(bytes@),
{
    let mut i: usize = 0;
    while i < bytes.0.len()
        invariant
            i <= bytes.0.len(),
            forall|j: int| 0 <= j < i ==> bytes@[j] == 0,
        decreases bytes.0.len() - i,
    {
        if bytes.0[i] != 0 {
            assert(bytes@[i as int] != 0);
            return false;
        }
        i = i + 1;
    }
    true
}

/// Midl (type 0x07) transaction.
#[derive(Debug)]
pub struct MidlTransactionRequest {
    pub tx: TransactionRequest,
    pub btc_tx_hash: Option<H256>,
    pub public_key: Option<Bytes>,
    pub btc_address_byte: Option<U256>,
    pub access_list: AccessList,
}

/// The model of a [`MidlTransactionRequest`].
#[verifier::ext_equal]
pub struct MidlTransactionRequestView {
    pub tx: TransactionRequestView,
    pub btc_tx_hash: Option<Seq<u8>>,
    pub public_key: Option<Seq<u8>>,
    pub btc_address_byte: Option<nat>,
    pub access_list: Seq<AccessListItemView>,
}

impl View for MidlTransactionRequest {
    type V = MidlTransactionRequestView;

    open spec fn view(&self) -> MidlTransactionRequestView {
        MidlTransactionRequestView {
            tx: self.tx@,
            btc_tx_hash: opt_view(self.btc_tx_hash),
            public_key: opt_view(self.public_key),
            btc_address_byte: opt_view(self.btc_address_byte),
            access_list: self.access_list@,
        }
    }
}

impl MidlTransactionRequestView {
    /// The common fields with the defaults that the encoding fills in for gas and gas price.
    pub open spec fn normalized_tx(self) -> TransactionRequestView {
        TransactionRequestView {
            gas: Some(self.normalized_gas()),
            gas_price: Some(
                match self.tx.gas_price {
                    Some(price) => price,
                    None => 0,
                },
            ),
            ..self.tx
        }
    }

    /// The gas limit, or the default one.
    pub open spec fn normalized_gas(self) -> nat {
        match self.tx.gas {
            Some(gas) => gas,
            None => MIDL_DEFAULT_GAS_LIMIT as nat,
        }
    }

    /// The hash of the Bitcoin transaction, or the zero hash.
    pub open spec fn normalized_btc_tx_hash(self) -> Seq<u8> {
        match self.btc_tx_hash {
            Some(hash) => hash,
            None => zeros(32),
        }
    }

    /// The public key, or the zero key.
    pub open spec fn normalized_public_key(self) -> Seq<u8> {
        match self.public_key {
            Some(key) => key,
            None => zeros(PUBLIC_KEY_LENGTH as nat),
        }
    }

    /// The address byte, or 0.
    pub open spec fn normalized_btc_address_byte(self) -> nat {
        match self.btc_address_byte {
            Some(byte) => byte,
            None => 0,
        }
    }

    /// The chain, or chain 1.
    pub open spec fn normalized_chain_id(self) -> u64 {
        match self.tx.chain_id {
            Some(id) => id,
            None => 1,
        }
    }
}

/// The encoded fields of a Midl transaction, in order.
pub open spec fn midl_fields(m: MidlTransactionRequestView) -> Seq<Seq<u8>> {
    seq![rlp_uint(m.normalized_chain_id() as nat)] + base_fields(m.normalized_tx()) + seq![
        rlp_string(m.normalized_btc_tx_hash()),
        rlp_string(m.normalized_public_key()),
        rlp_uint(m.normalized_btc_address_byte()),
        access_list_field(m.access_list),
    ]
}

/// The encoding of an unsigned Midl transaction.
pub open spec fn midl_rlp(m: MidlTransactionRequestView) -> Seq<u8> {
    rlp_list(concat(midl_fields(m)))
}

/// The encoding with the type in front of it, which is what is hashed to be signed.
pub open spec fn midl_typed_rlp(m: MidlTransactionRequestView) -> Seq<u8> {
    seq![MIDL_TYPE] + midl_rlp(m)
}

/// The encoded fields of a signed Midl transaction: those of the unsigned one, then the
/// signature with its recovery value in the plain form.
pub open spec fn midl_signed_fields(m: MidlTransactionRequestView, sig: SignatureView) -> Seq<
    Seq<u8>,
> {
    midl_fields(m) + seq![
        rlp_uint(normalized_v(sig.v, m.normalized_chain_id()) as nat),
        rlp_uint(sig.r),
        rlp_uint(sig.s),
    ]
}

/// The encoding of a signed Midl transaction.
pub open spec fn midl_signed_rlp(m: MidlTransactionRequestView, sig: SignatureView) -> Seq<u8> {
    rlp_list(concat(midl_signed_fields(m, sig)))
}

impl MidlTransactionRequest {
    /// The gas limit, or the default one.
    pub fn normalized_gas(&self) -> (r: U256)
        ensures
            r@ == self@.normalized_gas(),
    {
        match self.tx.gas {
            Some(gas) => gas,
            None => U256::from(MIDL_DEFAULT_GAS_LIMIT),
        }
    }

    /// The hash of the Bitcoin transaction, or the zero hash.
    pub fn normalized_btc_tx_hash(&self) -> (r: H256)
        ensures
            r@ == self@.normalized_btc_tx_hash(),
    {
        match self.btc_tx_hash {
            Some(hash) => hash,
            None => H256::zero(),
        }
    }

    /// The public key, or the zero key.
    pub fn normalized_public_key(&self) -> (r: Bytes)
        ensures
            r@ == self@.normalized_public_key(),
    {
        match &self.public_key {
            Some(key) => key.clone(),
            None => zero_public_key(),
        }
    }

    /// The address byte, or 0.
    pub fn normalized_btc_address_byte(&self) -> (r: U256)
        ensures
            r@ == self@.normalized_btc_address_byte(),
    {
        match self.btc_address_byte {
            Some(byte) => byte,
            None => U256::zero(),
        }
    }

    /// The common fields with the defaults for gas and gas price.
    pub fn normalized_tx(&self) -> (r: TransactionRequest)
        ensures
            r@ == self@.normalized_tx(),
    {
        let mut tx = self.tx.clone();
        if tx.gas.is_none() {
            tx.gas = Some(self.normalized_gas());
        }
        if tx.gas_price.is_none() {
            tx.gas_price = Some(U256::zero());
        }
        tx
    }

    /// The chain, or chain 1.
    fn normalized_chain_id(&self) -> (r: u64)
        ensures
            r == self@.normalized_chain_id(),
    {
        match self.tx.chain_id {
            Some(id) => id,
            None => 1,
        }
    }

    /// Writes all fields.
    fn append_fields(&self, stream: &mut RlpStream)
        requires
            stream_frames(*old(stream)).len() >= 1,
        ensures
            stream_frames(*final(stream)) == append_items(
                stream_frames(*old(stream)),
                midl_fields(self@),
            ),
    {
        let ghost start = stream_frames(*stream);
        let ghost first = seq![rlp_uint(self@.normalized_chain_id() as nat)];
        let ghost base = base_fields(self@.normalized_tx());
        let ghost rest = seq![
            rlp_string(self@.normalized_btc_tx_hash()),
            rlp_string(self@.normalized_public_key()),
            rlp_uint(self@.normalized_btc_address_byte()),
            access_list_field(self@.access_list),
        ];
        let tx = self.normalized_tx();
        append_u64(stream, self.normalized_chain_id());
        tx.rlp_base(stream);
        proof {
            assert(first.take(0) =~= Seq::empty());
            lemma_append_step(start, first, 0);
            assert(first.take(1) =~= first);
            lemma_append_both(start, first, base);
        }
        let ghost middle = stream_frames(*stream);
        append_bytes(stream, &self.normalized_btc_tx_hash().0);
        append_bytes(stream, self.normalized_public_key().0.as_slice());
        append_u256(stream, &self.normalized_btc_address_byte());
        proof {
            assert(rest.take(0) =~= Seq::empty());
            lemma_append_step(middle, rest, 0);
            lemma_append_step(middle, rest, 1);
            lemma_append_step(middle, rest, 2);
            lemma_items_remain(start, first + base);
            lemma_items_remain(middle, rest.take(3));
        }
        self.access_list.rlp_append(stream);
        proof {
            lemma_append_step(middle, rest, 3);
            assert(rest.take(4) =~= rest);
            lemma_append_both(start, first + base, rest);
        }
    }

    /// The encoding of the unsigned transaction: a list of its fields, with the defaults in
    /// place of what is absent.
    pub fn rlp(&self) -> (r: Bytes)
        ensures
            r@ == midl_rlp(self@),
    {
        let mut stream = new_stream();
        let ghost outer = stream_frames(stream);
        begin_list(&mut stream, NUM_MIDL_FIELDS);
        self.append_fields(&mut stream);
        proof {
            lemma_whole_list(outer, midl_fields(self@));
            assert(Seq::<u8>::empty() + midl_rlp(self@) =~= midl_rlp(self@));
        }
        Bytes(finish_stream(stream))
    }

    /// The encoding of the transaction with a signature: a list of its fields and of the
    /// signature's.
    pub fn rlp_signed(&self, signature: &Signature) -> (r: Bytes)
        requires
            can_normalize_v(signature.v, self@.normalized_chain_id()),
        ensures
            r@ == midl_signed_rlp(self@, signature@),
    {
        let mut stream = new_stream();
        let ghost outer = stream_frames(stream);
        begin_list(&mut stream, NUM_MIDL_FIELDS + 3);
        let ghost begun = stream_frames(stream);
        self.append_fields(&mut stream);
        let ghost middle = stream_frames(stream);
        let v = normalize_v(signature.v, self.normalized_chain_id());
        append_u64(&mut stream, v);
        append_u256(&mut stream, &signature.r);
        append_u256(&mut stream, &signature.s);
        proof {
            let rest = seq![
                rlp_uint(normalized_v(signature.v, self@.normalized_chain_id()) as nat),
                rlp_uint(signature@.r),
                rlp_uint(signature@.s),
            ];
            assert(rest.take(0) =~= Seq::empty());
            lemma_append_step(middle, rest, 0);
            lemma_append_step(middle, rest, 1);
            lemma_append_step(middle, rest, 2);
            assert(rest.take(3) =~= rest);
            lemma_append_both(begun, midl_fields(self@), rest);
            lemma_whole_list(outer, midl_signed_fields(self@, signature@));
            assert(Seq::<u8>::empty() + midl_signed_rlp(self@, signature@) =~= midl_signed_rlp(
                self@,
                signature@,
            ));
        }
        Bytes(finish_stream(stream))
    }

    /// The encoding of the unsigned transaction with the type in front of it.
    pub fn typed_rlp(&self) -> (r: Bytes)
        ensures
            r@ == midl_typed_rlp(self@),
    {
        let mut bytes: Vec<u8> = Vec::new();
        bytes.push(MIDL_TYPE);
        bytes.extend_from_slice(self.rlp().0.as_slice());
        assert(bytes@ =~= midl_typed_rlp(self@));
        Bytes(bytes)
    }

    /// The hash that a signature of the transaction is made over.
    pub fn sighash(&self) -> (r: H256)
        ensures
            r@ == keccak256_digest(midl_typed_rlp(self@)),
    {
        keccak256(self.typed_rlp().0.as_slice())
    }
}

} // verus!
