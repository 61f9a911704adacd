//! Transaction requests of the kinds that a node accepts, and what they consist of.

use crate::primitives::{
    lemma_address_injective, lemma_hash_injective, lemma_opt_address, lemma_opt_u256, opt_view,
    Address, Bytes, H256, U256,
};
use vstd::prelude::*;

verus! {

/// Whom a transaction goes to: an account, or a name that is yet to be resolved to one.
#[derive(Debug)]
pub enum NameOrAddress {
    Name(String),
    Address(Address),
}

/// The model of a [`NameOrAddress`].
#[verifier::ext_equal]
pub enum NameOrAddressView {
    Name(Seq<char>),
    Address(Seq<u8>),
}

impl View for NameOrAddress {
    type V = NameOrAddressView;

    open spec fn view(&self) -> NameOrAddressView {
        match self {
            NameOrAddress::Name(name) => NameOrAddressView::Name(name@),
            NameOrAddress::Address(address) => NameOrAddressView::Address(address@),
        }
    }
}

impl Clone for NameOrAddress {
    fn clone(&self) -> (r: NameOrAddress)
        ensures
            r@ == self@,
    {
        match self {
            NameOrAddress::Name(name) => NameOrAddress::Name(name.clone()),
            NameOrAddress::Address(address) => NameOrAddress::Address(*address),
        }
    }
}

impl PartialEq for NameOrAddress {
    fn eq(&self, other: &NameOrAddress) -> (r: bool) {
        match (self, other) {
            (NameOrAddress::Name(a), NameOrAddress::Name(b)) => *a == *b,
            (NameOrAddress::Address(a), NameOrAddress::Address(b)) => {
                proof {
                    lemma_address_injective(*a, *b);
                }
                *a == *b
            },
            _ => false,
        }
    }
}

impl Eq for NameOrAddress {

}

impl vstd::std_specs::cmp::PartialEqSpecImpl for NameOrAddress {
    open spec fn obeys_eq_spec() -> bool {
        true
    }

    open spec fn eq_spec(&self, other: &NameOrAddress) -> bool {
        self@ == other@
    }
}

/// An account and the slots of its storage that a transaction announces to touch.
#[derive(Debug)]
pub struct AccessListItem {
    pub address: Address,
    pub storage_keys: Vec<H256>,
}

/// The model of an [`AccessListItem`].
#[verifier::ext_equal]
pub struct AccessListItemView {
    pub address: Seq<u8>,
    pub storage_keys: Seq<Seq<u8>>,
}

impl View for AccessListItem {
    type V = AccessListItemView;

    open spec fn view(&self) -> AccessListItemView {
        AccessListItemView {
            address: self.address@,
            storage_keys: Seq::new(self.storage_keys@.len(), |i: int| self.storage_keys@[i]@),
        }
    }
}

impl Clone for AccessListItem {
    fn clone(&self) -> (r: AccessListItem)
        ensures
            r@ == self@,
    {
        let storage_keys = self.storage_keys.clone();
        let r = AccessListItem { address: self.address, storage_keys };
        assert(r@ =~= self@);
        r
    }
}

impl PartialEq for AccessListItem {
    fn eq(&self, other: &AccessListItem) -> (r: bool) {
        proof {
            lemma_address_injective(self.address, other.address);
        }
        if self.address != other.address {
            return false;
        }
        if self.storage_keys.len() != other.storage_keys.len() {
            assert(self@.storage_keys.len() != other@.storage_keys.len());
            return false;
        }
        let mut i: usize = 0;
        while i < self.storage_keys.len()
            invariant
                i <= self.storage_keys.len(),
                self.storage_keys.len() == other.storage_keys.len(),
                forall|j: int|
                    0 <= j < i ==> self@.storage_keys[j] == other@.storage_keys[j],
            decreases self.storage_keys.len() - i,
        {
            proof {
                lemma_hash_injective(self.storage_keys[i as int], other.storage_keys[i as int]);
            }
            if self.storage_keys[i] != other.storage_keys[i] {
                assert(self@.storage_keys[i as int] != other@.storage_keys[i as int]);
                return false;
            }
            i = i + 1;
        }
        assert(self@ =~= other@);
        true
    }
}

impl Eq for AccessListItem {

}

impl vstd::std_specs::cmp::PartialEqSpecImpl for AccessListItem {
    open spec fn obeys_eq_spec() -> bool {
        true
    }

    open spec fn eq_spec(&self, other: &AccessListItem) -> bool {
        self@ == other@
    }
}

/// The accounts and storage slots that a transaction announces to touch.
#[derive(Debug)]
pub struct AccessList(pub Vec<AccessListItem>);

impl View for AccessList {
    type V = Seq<AccessListItemView>;

    open spec fn view(&self) -> Seq<AccessListItemView> {
        Seq::new(self.0@.len(), |i: int| self.0@[i]@)
    }
}

impl Clone for AccessList {
    fn clone(&self) -> (r: AccessList)
        ensures
            r@ == self@,
    {
        let mut items: Vec<AccessListItem> = Vec::new();
        let mut i: usize = 0;
        while i < self.0.len()
            invariant
                i <= self.0.len(),
                items@.len() == i,
                forall|j: int| 0 <= j < i ==> (#[trigger] items@[j])@ == self.0@[j]@,
            decreases self.0.len() - i,
        {
            items.push(self.0[i].clone());
            i = i + 1;
        }
        let r = AccessList(items);
        assert(r@ =~= self@);
        r
    }
}

impl PartialEq for AccessList {
    fn eq(&self, other: &AccessList) -> (r: bool) {
        if self.0.len() != other.0.len() {
            assert(self@.len() != other@.len());
            return false;
        }
        let mut i: usize = 0;
        while i < self.0.len()
            invariant
                i <= self.0.len(),
                self.0.len() == other.0.len(),
                forall|j: int| 0 <= j < i ==> self@[j] == other@[j],
            decreases self.0.len() - i,
        {
            if self.0[i] != other.0[i] {
                assert(self@[i as int] != other@[i as int]);
                return false;
            }
            i = i + 1;
        }
        assert(self@ =~= other@);
        true
    }
}

impl Eq for AccessList {

}

impl vstd::std_specs::cmp::PartialEqSpecImpl for AccessList {
    open spec fn obeys_eq_spec() -> bool {
        true
    }

    open spec fn eq_spec(&self, other: &AccessList) -> bool {
        self@ == other@
    }
}

impl AccessList {
    /// The list without entries.
    pub fn empty() -> (r: AccessList)
        ensures
            r@ == Seq::<AccessListItemView>::empty(),
    {
        let r = AccessList(Vec::new());
        assert(r@ =~= Seq::<AccessListItemView>::empty());
        r
    }
}

impl From<Vec<AccessListItem>> for AccessList {
    fn from(items: Vec<AccessListItem>) -> (r: AccessList) {
        AccessList(items)
    }
}

impl vstd::std_specs::convert::FromSpecImpl<Vec<AccessListItem>> for AccessList {
    open spec fn obeys_from_spec() -> bool {
        true
    }

    open spec fn from_spec(items: Vec<AccessListItem>) -> AccessList {
        AccessList(items)
    }
}

/// Copies an optional byte string.
pub(crate) fn clone_bytes(o: &Option<Bytes>) -> (r: Option<Bytes>)
    ensures
        opt_view(r) == opt_view(*o),
{
    match o {
        Some(b) => Some(b.clone()),
        None => None,
    }
}

/// Copies an optional recipient.
pub(crate) fn clone_recipient(o: &Option<NameOrAddress>) -> (r: Option<NameOrAddress>)
    ensures
        opt_view(r) == opt_view(*o),
{
    match o {
        Some(to) => Some(to.clone()),
        None => None,
    }
}

/// The common fields of a transaction that is yet to be signed. What is absent is left to a
/// default or to the node.
#[derive(Debug)]
pub struct TransactionRequest {
    pub from: Option<Address>,
    pub to: Option<NameOrAddress>,
    pub gas: Option<U256>,
    pub gas_price: Option<U256>,
    pub value: Option<U256>,
    pub data: Option<Bytes>,
    pub nonce: Option<U256>,
    pub chain_id: Option<u64>,
}

/// The model of a [`TransactionRequest`].
#[verifier::ext_equal]
pub struct TransactionRequestView {
    pub from: Option<Seq<u8>>,
    pub to: Option<NameOrAddressView>,
    pub gas: Option<nat>,
    pub gas_price: Option<nat>,
    pub value: Option<nat>,
    pub data: Option<Seq<u8>>,
    pub nonce: Option<nat>,
    pub chain_id: Option<u64>,
}

impl View for TransactionRequest {
    type V = TransactionRequestView;

    open spec fn view(&self) -> TransactionRequestView {
        TransactionRequestView {
            from: opt_view(self.from),
            to: opt_view(self.to),
            gas: opt_view(self.gas),
            gas_price: opt_view(self.gas_price),
            value: opt_view(self.value),
            data: opt_view(self.data),
            nonce: opt_view(self.nonce),
            chain_id: self.chain_id,
        }
    }
}

impl Clone for TransactionRequest {
    fn clone(&self) -> (r: TransactionRequest)
        ensures
            r@ == self@,
    {
        TransactionRequest {
            from: self.from,
            to: clone_recipient(&self.to),
            gas: self.gas,
            gas_price: self.gas_price,
            value: self.value,
            data: clone_bytes(&self.data),
            nonce: self.nonce,
            chain_id: self.chain_id,
        }
    }
}

impl PartialEq for TransactionRequest {
    fn eq(&self, other: &TransactionRequest) -> (r: bool) {
        proof {
            lemma_opt_address(self.from, other.from);
            lemma_opt_u256(self.gas, other.gas);
            lemma_opt_u256(self.gas_price, other.gas_price);
            lemma_opt_u256(self.value, other.value);
            lemma_opt_u256(self.nonce, other.nonce);
        }
        self.from == other.from && self.to == other.to && self.gas == other.gas && self.gas_price
            == other.gas_price && self.value == other.value && self.data == other.data && self.nonce
            == other.nonce && self.chain_id == other.chain_id
    }
}

impl Eq for TransactionRequest {

}

impl vstd::std_specs::cmp::PartialEqSpecImpl for TransactionRequest {
    open spec fn obeys_eq_spec() -> bool {
        true
    }

    open spec fn eq_spec(&self, other: &TransactionRequest) -> bool {
        self@ == other@
    }
}

impl Default for TransactionRequest {
    fn default() -> (r: TransactionRequest)
        ensures
            r@ == empty_request(),
    {
        TransactionRequest {
            from: None,
            to: None,
            gas: None,
            gas_price: None,
            value: None,
            data: None,
            nonce: None,
            chain_id: None,
        }
    }
}

/// The request with all fields absent.
pub open spec fn empty_request() -> TransactionRequestView {
    TransactionRequestView {
        from: None,
        to: None,
        gas: None,
        gas_price: None,
        value: None,
        data: None,
        nonce: None,
        chain_id: None,
    }
}

/// A request with an access list (transaction type 0x01).
#[derive(Debug)]
pub struct Eip2930TransactionRequest {
    pub tx: TransactionRequest,
    pub access_list: AccessList,
}

/// The model of an [`Eip2930TransactionRequest`].
#[verifier::ext_equal]
pub struct Eip2930TransactionRequestView {
    pub tx: TransactionRequestView,
    pub access_list: Seq<AccessListItemView>,
}

impl View for Eip2930TransactionRequest {
    type V = Eip2930TransactionRequestView;

    open spec fn view(&self) -> Eip2930TransactionRequestView {
        Eip2930TransactionRequestView { tx: self.tx@, access_list: self.access_list@ }
    }
}

impl Clone for Eip2930TransactionRequest {
    fn clone(&self) -> (r: Eip2930TransactionRequest)
        ensures
            r@ == self@,
    {
        Eip2930TransactionRequest { tx: self.tx.clone(), access_list: self.access_list.clone() }
    }
}

impl PartialEq for Eip2930TransactionRequest {
    fn eq(&self, other: &Eip2930TransactionRequest) -> (r: bool) {
        self.tx == other.tx && self.access_list == other.access_list
    }
}

impl Eq for Eip2930TransactionRequest {

}

impl vstd::std_specs::cmp::PartialEqSpecImpl for Eip2930TransactionRequest {
    open spec fn obeys_eq_spec() -> bool {
        true
    }

    open spec fn eq_spec(&self, other: &Eip2930TransactionRequest) -> bool {
        self@ == other@
    }
}

/// A request with a fee market bid (transaction type 0x02).
#[derive(Debug)]
pub struct Eip1559TransactionRequest {
    pub from: Option<Address>,
    pub to: Option<NameOrAddress>,
    pub gas: Option<U256>,
    pub value: Option<U256>,
    pub data: Option<Bytes>,
    pub nonce: Option<U256>,
    pub access_list: AccessList,
    pub max_priority_fee_per_gas: Option<U256>,
    pub max_fee_per_gas: Option<U256>,
    pub chain_id: Option<u64>,
}

/// The model of an [`Eip1559TransactionRequest`].
#[verifier::ext_equal]
pub struct Eip1559TransactionRequestView {
    pub from: Option<Seq<u8>>,
    pub to: Option<NameOrAddressView>,
    pub gas: Option<nat>,
    pub value: Option<nat>,
    pub data: Option<Seq<u8>>,
    pub nonce: Option<nat>,
    pub access_list: Seq<AccessListItemView>,
    pub max_priority_fee_per_gas: Option<nat>,
    pub max_fee_per_gas: Option<nat>,
    pub chain_id: Option<u64>,
}

impl View for Eip1559TransactionRequest {
    type V = Eip1559TransactionRequestView;

    open spec fn view(&self) -> Eip1559TransactionRequestView {
        Eip1559TransactionRequestView {
            from: opt_view(self.from),
            to: opt_view(self.to),
            gas: opt_view(self.gas),
            value: opt_view(self.value),
            data: opt_view(self.data),
            nonce: opt_view(self.nonce),
            access_list: self.access_list@,
            max_priority_fee_per_gas: opt_view(self.max_priority_fee_per_gas),
            max_fee_per_gas: opt_view(self.max_fee_per_gas),
            chain_id: self.chain_id,
        }
    }
}

impl Clone for Eip1559TransactionRequest {
    fn clone(&self) -> (r: Eip1559TransactionRequest)
        ensures
            r@ == self@,
    {
        Eip1559TransactionRequest {
            from: self.from,
            to: clone_recipient(&self.to),
            gas: self.gas,
            value: self.value,
            data: clone_bytes(&self.data),
            nonce: self.nonce,
            access_list: self.access_list.clone(),
            max_priority_fee_per_gas: self.max_priority_fee_per_gas,
            max_fee_per_gas: self.max_fee_per_gas,
            chain_id: self.chain_id,
        }
    }
}

impl PartialEq for Eip1559TransactionRequest {
    fn eq(&self, other: &Eip1559TransactionRequest) -> (r: bool) {
        proof {
            lemma_opt_address(self.from, other.from);
            lemma_opt_u256(self.gas, other.gas);
            lemma_opt_u256(self.value, other.value);
            lemma_opt_u256(self.nonce, other.nonce);
            lemma_opt_u256(self.max_priority_fee_per_gas, other.max_priority_fee_per_gas);
            lemma_opt_u256(self.max_fee_per_gas, other.max_fee_per_gas);
        }
        self.from == other.from && self.to == other.to && self.gas == other.gas && self.value
            == other.value && self.data == other.data && self.nonce == other.nonce
            && self.access_list == other.access_list && self.max_priority_fee_per_gas
            == other.max_priority_fee_per_gas && self.max_fee_per_gas == other.max_fee_per_gas
            && self.chain_id == other.chain_id
    }
}

impl Eq for Eip1559TransactionRequest {

}

impl vstd::std_specs::cmp::PartialEqSpecImpl for Eip1559TransactionRequest {
    open spec fn obeys_eq_spec() -> bool {
        true
    }

    open spec fn eq_spec(&self, other: &Eip1559TransactionRequest) -> bool {
        self@ == other@
    }
}

} // verus!
