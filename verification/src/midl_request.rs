//! Building Midl transactions: from a plain request, field by field, or from a transaction
//! of the chain.

use crate::midl::{MidlTransactionRequest, MidlTransactionRequestView};
use crate::primitives::{lemma_opt_hash, lemma_opt_u256, opt_view, Address, Bytes, H256, U256};
use crate::transaction::{
    clone_bytes, empty_request, AccessList, NameOrAddress, NameOrAddressView, TransactionRequest,
    TransactionRequestView,
};
use vstd::prelude::*;

verus! {

/// `From::from` of std from a type to itself gives its argument back.
pub assume_specification<Same> [ <Same as std::convert::From<Same>>::from ](t: Same) -> (r: Same)
    ensures
        r == t,
;

impl Clone for MidlTransactionRequest {
    fn clone(&self) -> (r: MidlTransactionRequest)
        ensures
            r@ == self@,
    {
        MidlTransactionRequest {
            tx: self.tx.clone(),
            btc_tx_hash: self.btc_tx_hash,
            public_key: clone_bytes(&self.public_key),
            btc_address_byte: self.btc_address_byte,
            access_list: self.access_list.clone(),
        }
    }
}

impl PartialEq for MidlTransactionRequest {
    fn eq(&self, other: &MidlTransactionRequest) -> (r: bool) {
        proof {
            lemma_opt_hash(self.btc_tx_hash, other.btc_tx_hash);
            lemma_opt_u256(self.btc_address_byte, other.btc_address_byte);
        }
        self.tx == other.tx && self.btc_tx_hash == other.btc_tx_hash && self.public_key
            == other.public_key && self.btc_address_byte == other.btc_address_byte
            && self.access_list == other.access_list
    }
}

impl Eq for MidlTransactionRequest {

}

impl vstd::std_specs::cmp::PartialEqSpecImpl for MidlTransactionRequest {
    open spec fn obeys_eq_spec() -> bool {
        true
    }

    open spec fn eq_spec(&self, other: &MidlTransactionRequest) -> bool {
        self@ == other@
    }
}

/// A request as a Midl transaction, with none of the fields that one adds.
pub open spec fn plain_midl(tx: TransactionRequestView) -> MidlTransactionRequestView {
    MidlTransactionRequestView {
        tx,
        btc_tx_hash: None,
        public_key: None,
        btc_address_byte: None,
        access_list: Seq::empty(),
    }
}

impl Default for MidlTransactionRequest {
    fn default() -> (r: MidlTransactionRequest)
        ensures
            r@ == plain_midl(empty_request()),
    {
        MidlTransactionRequest::new(TransactionRequest::default())
    }
}

impl MidlTransactionRequest {
    /// A request as a Midl transaction, with none of the fields that one adds.
    pub fn new(tx: TransactionRequest) -> (r: MidlTransactionRequest)
        ensures
            r@ == plain_midl(tx@),
    {
        MidlTransactionRequest {
            tx,
            btc_tx_hash: None,
            public_key: None,
            btc_address_byte: None,
            access_list: AccessList::empty(),
        }
    }

    /// Sets the access list to what `access_list` converts to; the rest stays.
    pub fn with_access_list<T: Into<AccessList>>(self, access_list: T) -> (r:
        MidlTransactionRequest)
        ensures
            call_ensures(<T as Into<AccessList>>::into, (access_list,), r.access_list),
            r@ == (MidlTransactionRequestView { access_list: r.access_list@, ..self@ }),
    {
        let mut request = self;
        request.access_list = access_list.into();
        request
    }

    /// Sets the hash of the Bitcoin transaction; the rest stays.
    pub fn with_btc_tx_hash(self, btc_tx_hash: H256) -> (r: MidlTransactionRequest)
        ensures
            r@ == (MidlTransactionRequestView { btc_tx_hash: Some(btc_tx_hash@), ..self@ }),
    {
        let mut request = self;
        request.btc_tx_hash = Some(btc_tx_hash);
        request
    }

    /// Sets the public key; the rest stays.
    pub fn with_public_key(self, public_key: Bytes) -> (r: MidlTransactionRequest)
        ensures
            r@ == (MidlTransactionRequestView { public_key: Some(public_key@), ..self@ }),
    {
        let mut request = self;
        request.public_key = Some(public_key);
        request
    }

    /// Sets the address byte to what `byte` converts to; the rest stays.
    pub fn with_btc_address_byte<T: Into<U256>>(self, byte: T) -> (r: MidlTransactionRequest)
        ensures
            r.btc_address_byte matches Some(b) && call_ensures(
                <T as Into<U256>>::into,
                (byte,),
                b,
            ),
            r@ == (MidlTransactionRequestView {
                btc_address_byte: opt_view(r.btc_address_byte),
                ..self@
            }),
    {
        let mut request = self;
        request.btc_address_byte = Some(byte.into());
        request
    }
}

/// A transaction as the chain tells of it: the fields that a request can be made of.
#[derive(Debug)]
pub struct Transaction {
    pub from: Address,
    pub to: Option<Address>,
    pub gas: U256,
    pub gas_price: Option<U256>,
    pub value: U256,
    pub input: Bytes,
    pub nonce: U256,
    pub chain_id: Option<u64>,
    pub access_list: Option<AccessList>,
    pub btc_tx_hash: Option<H256>,
    pub public_key: Option<Bytes>,
    pub btc_address_byte: Option<U256>,
}

/// The request that a transaction of the chain answers to.
pub open spec fn request_of(tx: Transaction) -> TransactionRequestView {
    TransactionRequestView {
        from: Some(tx.from@),
        to: match tx.to {
            Some(address) => Some(NameOrAddressView::Address(address@)),
            None => None,
        },
        gas: Some(tx.gas@),
        gas_price: opt_view(tx.gas_price),
        value: Some(tx.value@),
        data: Some(tx.input@),
        nonce: Some(tx.nonce@),
        chain_id: tx.chain_id,
    }
}

/// The Midl transaction that a transaction of the chain answers to; an absent access list
/// is an empty one.
pub open spec fn midl_of(tx: Transaction) -> MidlTransactionRequestView {
    MidlTransactionRequestView {
        tx: request_of(tx),
        btc_tx_hash: opt_view(tx.btc_tx_hash),
        public_key: opt_view(tx.public_key),
        btc_address_byte: opt_view(tx.btc_address_byte),
        access_list: match tx.access_list {
            Some(list) => list@,
            None => Seq::empty(),
        },
    }
}

impl From<&Transaction> for TransactionRequest {
    fn from(tx: &Transaction) -> (r: TransactionRequest)
        ensures
            r@ == request_of(*tx),
    {
        TransactionRequest {
            from: Some(tx.from),
            to: match tx.to {
                Some(address) => Some(NameOrAddress::Address(address)),
                None => None,
            },
            gas: Some(tx.gas),
            gas_price: tx.gas_price,
            value: Some(tx.value),
            data: Some(tx.input.clone()),
            nonce: Some(tx.nonce),
            chain_id: tx.chain_id,
        }
    }
}

impl vstd::std_specs::convert::FromSpecImpl<&Transaction> for TransactionRequest {
    open spec fn obeys_from_spec() -> bool {
        false
    }

    open spec fn from_spec(tx: &Transaction) -> TransactionRequest {
        arbitrary()
    }
}

impl From<&Transaction> for MidlTransactionRequest {
    fn from(tx: &Transaction) -> (r: MidlTransactionRequest)
        ensures
            r@ == midl_of(*tx),
    {
        let access_list = match &tx.access_list {
            Some(list) => list.clone(),
            None => AccessList::empty(),
        };
        let common = TransactionRequest::from(tx);
        let mut request = MidlTransactionRequest::new(common).with_access_list(access_list);
        request.btc_tx_hash = tx.btc_tx_hash;
        request.public_key = clone_bytes(&tx.public_key);
        request.btc_address_byte = tx.btc_address_byte;
        request
    }
}

impl vstd::std_specs::convert::FromSpecImpl<&Transaction> for MidlTransactionRequest {
    open spec fn obeys_from_spec() -> bool {
        false
    }

    open spec fn from_spec(tx: &Transaction) -> MidlTransactionRequest {
        arbitrary()
    }
}

} // verus!
