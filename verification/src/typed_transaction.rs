//! A transaction request of any kind.

use crate::midl::{MidlTransactionRequest, MidlTransactionRequestView};
use crate::transaction::{
    Eip1559TransactionRequest, Eip1559TransactionRequestView, Eip2930TransactionRequest,
    Eip2930TransactionRequestView, TransactionRequest, TransactionRequestView,
};
use vstd::prelude::*;

verus! {

/// A transaction request of any kind.
#[derive(Debug)]
pub enum TypedTransaction {
    /// A transaction with a gas price.
    Legacy(TransactionRequest),
    /// A transaction with a gas price and an access list (type 0x01).
    Eip2930(Eip2930TransactionRequest),
    /// A transaction with a fee market bid (type 0x02).
    Eip1559(Eip1559TransactionRequest),
    /// A transaction that is bound to a Bitcoin transaction (type 0x07).
    Midl(MidlTransactionRequest),
}

/// The model of a [`TypedTransaction`].
#[verifier::ext_equal]
pub enum TypedTransactionView {
    Legacy(TransactionRequestView),
    Eip2930(Eip2930TransactionRequestView),
    Eip1559(Eip1559TransactionRequestView),
    Midl(MidlTransactionRequestView),
}

impl View for TypedTransaction {
    type V = TypedTransactionView;

    open spec fn view(&self) -> TypedTransactionView {
        match self {
            TypedTransaction::Legacy(tx) => TypedTransactionView::Legacy(tx@),
            TypedTransaction::Eip2930(tx) => TypedTransactionView::Eip2930(tx@),
            TypedTransaction::Eip1559(tx) => TypedTransactionView::Eip1559(tx@),
            TypedTransaction::Midl(tx) => TypedTransactionView::Midl(tx@),
        }
    }
}

impl Clone for TypedTransaction {
    fn clone(&self) -> (r: TypedTransaction)
        ensures
            r@ == self@,
    {
        match self {
            TypedTransaction::Legacy(tx) => TypedTransaction::Legacy(tx.clone()),
            TypedTransaction::Eip2930(tx) => TypedTransaction::Eip2930(tx.clone()),
            TypedTransaction::Eip1559(tx) => TypedTransaction::Eip1559(tx.clone()),
            TypedTransaction::Midl(tx) => TypedTransaction::Midl(tx.clone()),
        }
    }
}

impl PartialEq for TypedTransaction {
    fn eq(&self, other: &TypedTransaction) -> (r: bool) {
        match (self, other) {
            (TypedTransaction::Legacy(a), TypedTransaction::Legacy(b)) => *a == *b,
            (TypedTransaction::Eip2930(a), TypedTransaction::Eip2930(b)) => *a == *b,
            (TypedTransaction::Eip1559(a), TypedTransaction::Eip1559(b)) => *a == *b,
            (TypedTransaction::Midl(a), TypedTransaction::Midl(b)) => *a == *b,
            _ => false,
        }
    }
}

impl Eq for TypedTransaction {

}

impl vstd::std_specs::cmp::PartialEqSpecImpl for TypedTransaction {
    open spec fn obeys_eq_spec() -> bool {
        true
    }

    open spec fn eq_spec(&self, other: &TypedTransaction) -> bool {
        self@ == other@
    }
}

} // verus!
