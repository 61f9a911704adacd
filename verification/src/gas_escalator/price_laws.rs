//! What escalation does to each kind of transaction, fee by fee.

use crate::gas_escalator::monitored::{
    bid_prices, bids, escalated_by, priced_by, question_of, with_prices,
    GasEscalator, Prices, PricesView, Question,
};
use crate::primitives::U256;
use crate::transaction::{
    Eip1559TransactionRequestView, Eip2930TransactionRequestView, TransactionRequestView,
};
use crate::typed_transaction::TypedTransactionView;
use vstd::prelude::*;

verus! {

/// Whether a price is the largest of three: no less than each, and one of them.
pub open spec fn is_largest(price: nat, a: nat, b: nat, c: nat) -> bool {
    &&& price >= a && price >= b && price >= c
    &&& price == a || price == b || price == c
}

/// Escalating a transaction with a gas price gives it the largest of the escalator's price, the
/// network's and what it bid before, and changes nothing else.
pub proof fn law_gas_price_is_the_largest(
    t: TransactionRequestView,
    before: nat,
    escalated: PricesView,
    network: PricesView,
    price: nat,
)
    requires
        t.gas_price == Some(before),
        is_largest(price, escalated.fee, network.fee, before),
    ensures
        with_prices(TypedTransactionView::Legacy(t), escalated, network) == Some(
            TypedTransactionView::Legacy(TransactionRequestView { gas_price: Some(price), ..t }),
        ),
{
}

/// Escalating a transaction with a gas price and an access list gives it the larger of the
/// escalator's price and what it bid before, whatever the network asks for, and changes nothing
/// else.
pub proof fn law_gas_price_without_the_network(
    t: Eip2930TransactionRequestView,
    before: nat,
    escalated: PricesView,
    network: PricesView,
    price: nat,
)
    requires
        t.tx.gas_price == Some(before),
        is_largest(price, escalated.fee, escalated.fee, before),
    ensures
        with_prices(TypedTransactionView::Eip2930(t), escalated, network) == Some(
            TypedTransactionView::Eip2930(
                Eip2930TransactionRequestView {
                    tx: TransactionRequestView { gas_price: Some(price), ..t.tx },
                    ..t
                },
            ),
        ),
{
}

/// Escalating a transaction with a fee market bid gives each of its two fees the largest of what
/// the escalator says, what the network asks for and what was bid before, for that same fee, and
/// changes nothing else.
pub proof fn law_each_fee_is_the_largest(
    t: Eip1559TransactionRequestView,
    fee_before: nat,
    priority_before: nat,
    escalated: PricesView,
    network: PricesView,
    fee: nat,
    priority: nat,
)
    requires
        t.max_fee_per_gas == Some(fee_before),
        t.max_priority_fee_per_gas == Some(priority_before),
        is_largest(fee, escalated.fee, network.fee, fee_before),
        is_largest(priority, escalated.priority, network.priority, priority_before),
    ensures
        with_prices(TypedTransactionView::Eip1559(t), escalated, network) == Some(
            TypedTransactionView::Eip1559(
                Eip1559TransactionRequestView {
                    max_fee_per_gas: Some(fee),
                    max_priority_fee_per_gas: Some(priority),
                    ..t
                },
            ),
        ),
{
}

/// Whether all fees of a transaction are set, so that it can be escalated. Those of a Midl
/// transaction do not count.
pub open spec fn has_fees(tx: TypedTransactionView) -> bool {
    match tx {
        TypedTransactionView::Legacy(t) => t.gas_price is Some,
        TypedTransactionView::Eip2930(t) => t.tx.gas_price is Some,
        TypedTransactionView::Eip1559(t) => t.max_fee_per_gas is Some
            && t.max_priority_fee_per_gas is Some,
        TypedTransactionView::Midl(_) => false,
    }
}

/// A transaction can be escalated if and only if all its fees are set.
pub proof fn law_escalated_iff_it_has_fees(
    tx: TypedTransactionView,
    escalated: PricesView,
    network: PricesView,
)
    ensures
        with_prices(tx, escalated, network) is Some <==> has_fees(tx),
        question_of(tx) is NotEscalated <==> !has_fees(tx),
        bids(tx).len() == 0 <==> !has_fees(tx),
{
}

/// What the network is asked for: its gas price for a transaction with a gas price, its fees for
/// one with a fee market bid, and nothing for one with an access list and a gas price.
pub proof fn law_questions(tx: TypedTransactionView)
    requires
        has_fees(tx),
    ensures
        tx is Legacy ==> question_of(tx) == Question::GasPrice,
        tx is Eip2930 ==> question_of(tx) == Question::Nothing,
        tx is Eip1559 ==> question_of(tx) == Question::Fees,
{
}

/// A transaction whose fees are not all set bids nothing.
pub proof fn law_no_bids_without_fees(tx: TypedTransactionView)
    requires
        !has_fees(tx),
    ensures
        bids(tx) == Seq::<nat>::empty(),
        bid_prices(tx) == (PricesView { fee: 0, priority: 0 }),
{
}

/// What a transaction bids is what its fees say.
pub proof fn law_bids_are_the_fees(tx: TypedTransactionView)
    requires
        has_fees(tx),
    ensures
        tx matches TypedTransactionView::Legacy(t) ==> bids(tx) == seq![t.gas_price->0]
            && bid_prices(tx) == (PricesView { fee: t.gas_price->0, priority: 0 }),
        tx matches TypedTransactionView::Eip2930(t) ==> bids(tx) == seq![t.tx.gas_price->0]
            && bid_prices(tx) == (PricesView { fee: t.tx.gas_price->0, priority: 0 }),
        tx matches TypedTransactionView::Eip1559(t) ==> bids(tx) == seq![
            t.max_fee_per_gas->0,
            t.max_priority_fee_per_gas->0,
        ] && bid_prices(tx) == (PricesView {
            fee: t.max_fee_per_gas->0,
            priority: t.max_priority_fee_per_gas->0,
        }),
{
}

/// Each fee that is raised has a price for which the escalator was asked: the gas price or the
/// fee cap about the first one, and the priority fee about the first priority fee, both after
/// the same time.
pub proof fn law_escalator_is_asked_fee_by_fee<E: GasEscalator>(
    escalator: E,
    tx: TypedTransactionView,
    initial: PricesView,
    time_elapsed: u64,
    prices: Prices,
)
    requires
        has_fees(tx),
        escalated_by(escalator, tx, initial, time_elapsed, prices),
    ensures
        exists|asked: U256|
            asked@ == initial.fee && #[trigger] call_ensures(
                E::get_gas_price,
                (&escalator, asked, time_elapsed),
                prices.fee,
            ),
        tx is Eip1559 ==> exists|asked: U256|
            asked@ == initial.priority && #[trigger] call_ensures(
                E::get_gas_price,
                (&escalator, asked, time_elapsed),
                prices.priority,
            ),
{
    assert(priced_by(escalator, initial.fee, time_elapsed, prices.fee));
}

} // verus!
