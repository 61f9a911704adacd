//! What a round does with each answer, said of the answer and of the transaction's own fees.

use crate::gas_escalator::monitored::{MonitoredTransactionView, Prices, PricesView};
use crate::gas_escalator::price_laws::{
    has_fees, is_largest, law_each_fee_is_the_largest, law_escalated_iff_it_has_fees,
    law_gas_price_is_the_largest, law_gas_price_without_the_network,
};
use crate::gas_escalator::round::{
    consulted, new_round, round_action, round_result, round_step, Action, ActionView, Answer,
    RoundView, Stage, StageView,
};
use crate::gas_escalator::sending::{law_kinds_of_failure, occurs_in, GasEscalatorError};
use crate::primitives::{H256, U256};
use crate::transaction::{
    Eip1559TransactionRequestView, Eip2930TransactionRequestView, TransactionRequestView,
};
use crate::typed_transaction::TypedTransactionView;
use instant::Instant;
use vstd::prelude::*;

verus! {

/// What a round waits for first at a position: whether the transaction there was included, if it
/// has a hash to ask about, or else the time. Behind the last transaction it waits for nothing.
pub open spec fn first_stage_at(txs: Seq<MonitoredTransactionView>, position: nat) -> StageView {
    if position >= txs.len() {
        StageView::Done
    } else if txs[position as int].hash is Some {
        StageView::Receipt
    } else {
        StageView::Time
    }
}

/// The round at its next transaction, after the current one left.
pub open spec fn without_current(round: RoundView) -> RoundView {
    RoundView {
        next: round.next + 1,
        stage: first_stage_at(round.txs, round.next + 1),
        ..round
    }
}

/// The round at its next transaction, with this one kept in place of the current one.
pub open spec fn with_kept(round: RoundView, tx: MonitoredTransactionView) -> RoundView {
    RoundView { kept: round.kept.push(tx), ..without_current(round) }
}

/// Whether a round goes on with this form of its current transaction: it keeps the transaction as
/// it is where nothing is new, and broadcasts the new form otherwise.
pub open spec fn goes_on_with(
    round: RoundView,
    after: RoundView,
    tx: TypedTransactionView,
) -> bool {
    if tx == round.txs[round.next as int].inner {
        after == with_kept(round, round.txs[round.next as int])
    } else {
        after == (RoundView { stage: StageView::Broadcast(tx), ..round })
    }
}

/// A round begins with no transaction decided and none kept, and asks for the latest block.
pub proof fn law_round_begins(txs: Seq<MonitoredTransactionView>)
    ensures
        new_round(txs).txs == txs,
        new_round(txs).next == 0,
        new_round(txs).kept.len() == 0,
        new_round(txs).wf(),
        round_action(new_round(txs)) is FetchBlock,
{
}

/// The base fee that a round is told is what it remembers; it goes on with the first
/// transaction.
pub proof fn law_block_is_remembered<M>(
    round: RoundView,
    base_fee: Option<U256>,
    elapsed: u64,
    now: Instant,
    escalated: PricesView,
)
    requires
        round.wf(),
        round.stage is Block,
    ensures
        round_step(round, Answer::<M>::Block(base_fee), elapsed, now, escalated) == (RoundView {
            base_fee,
            stage: first_stage_at(round.txs, 0),
            ..round
        }),
{
}

/// A transaction with a receipt leaves; one without goes on to be escalated.
pub proof fn law_receipt_decides<M>(
    round: RoundView,
    included: bool,
    elapsed: u64,
    now: Instant,
    escalated: PricesView,
)
    requires
        round.wf(),
        round.stage is Receipt,
    ensures
        round_step(round, Answer::Receipt(Ok::<bool, M>(included)), elapsed, now, escalated) == (
        if included {
            without_current(round)
        } else {
            RoundView { stage: StageView::Time, ..round }
        }),
{
}

/// A transaction whose fees are not all set, and a Midl transaction, leaves.
pub proof fn law_transaction_without_fees_leaves<M>(
    round: RoundView,
    elapsed: u64,
    now: Instant,
    escalated: PricesView,
)
    requires
        round.wf(),
        round.stage is Time,
        !has_fees(round.txs[round.next as int].inner),
    ensures
        round_step(round, Answer::<M>::Time, elapsed, now, escalated) == without_current(round),
{
    law_escalated_iff_it_has_fees(round.current().inner, escalated, escalated);
}

/// Once the time is known, the gas price of the network is asked for where the transaction has a
/// gas price, and its fees where it has a fee market bid; the time is remembered.
pub proof fn law_time_is_remembered<M>(
    round: RoundView,
    elapsed: u64,
    now: Instant,
    escalated: PricesView,
)
    requires
        round.wf(),
        round.stage is Time,
        has_fees(round.txs[round.next as int].inner),
    ensures
        round.txs[round.next as int].inner is Legacy ==> round_step(
            round,
            Answer::<M>::Time,
            elapsed,
            now,
            escalated,
        ) == (RoundView { stage: StageView::GasPrice(elapsed), ..round }),
        round.txs[round.next as int].inner is Eip1559 ==> round_step(
            round,
            Answer::<M>::Time,
            elapsed,
            now,
            escalated,
        ) == (RoundView { stage: StageView::Fees(elapsed), ..round }),
{
}

/// A transaction with a gas price and an access list goes on with the larger of the escalator's
/// price and what it bid before, as soon as the time is known.
pub proof fn law_access_list_transaction_goes_on<M>(
    round: RoundView,
    t: Eip2930TransactionRequestView,
    before: nat,
    elapsed: u64,
    now: Instant,
    escalated: PricesView,
    price: nat,
)
    requires
        round.wf(),
        round.stage is Time,
        round.txs[round.next as int].inner == TypedTransactionView::Eip2930(t),
        t.tx.gas_price == Some(before),
        is_largest(price, escalated.fee, escalated.fee, before),
    ensures
        goes_on_with(
            round,
            round_step(round, Answer::<M>::Time, elapsed, now, escalated),
            TypedTransactionView::Eip2930(
                Eip2930TransactionRequestView {
                    tx: TransactionRequestView { gas_price: Some(price), ..t.tx },
                    ..t
                },
            ),
        ),
{
    let network = PricesView { fee: 0, priority: 0 };
    law_gas_price_without_the_network(t, before, escalated, network, price);
}

/// A transaction with a gas price goes on with the largest of the price that the network told,
/// the escalator's and what it bid before. A network that tells none asks for 0.
pub proof fn law_told_gas_price_counts<M>(
    round: RoundView,
    t: TransactionRequestView,
    before: nat,
    told: Option<U256>,
    elapsed: u64,
    now: Instant,
    escalated: PricesView,
    price: nat,
)
    requires
        round.wf(),
        round.stage is GasPrice,
        round.txs[round.next as int].inner == TypedTransactionView::Legacy(t),
        t.gas_price == Some(before),
        told matches Some(asked) ==> is_largest(price, asked@, escalated.fee, before),
        told is None ==> is_largest(price, 0, escalated.fee, before),
    ensures
        goes_on_with(
            round,
            round_step(round, Answer::<M>::GasPrice(told), elapsed, now, escalated),
            TypedTransactionView::Legacy(TransactionRequestView { gas_price: Some(price), ..t }),
        ),
{
    let asked = match told {
        Some(asked) => asked@,
        None => 0,
    };
    let network = PricesView { fee: asked, priority: 0 };
    law_gas_price_is_the_largest(t, before, escalated, network, price);
}

/// A transaction with a fee market bid goes on with two fees. Each is the largest of what the
/// network told for that fee, what the escalator says and what was bid before. A network that
/// tells none asks for 0.
pub proof fn law_told_fees_count<M>(
    round: RoundView,
    t: Eip1559TransactionRequestView,
    fee_before: nat,
    priority_before: nat,
    told: Option<Prices>,
    elapsed: u64,
    now: Instant,
    escalated: PricesView,
    fee: nat,
    priority: nat,
)
    requires
        round.wf(),
        round.stage is Fees,
        round.txs[round.next as int].inner == TypedTransactionView::Eip1559(t),
        t.max_fee_per_gas == Some(fee_before),
        t.max_priority_fee_per_gas == Some(priority_before),
        told matches Some(fees) ==> {
            &&& is_largest(fee, fees.fee@, escalated.fee, fee_before)
            &&& is_largest(priority, fees.priority@, escalated.priority, priority_before)
        },
        told is None ==> {
            &&& is_largest(fee, 0, escalated.fee, fee_before)
            &&& is_largest(priority, 0, escalated.priority, priority_before)
        },
    ensures
        goes_on_with(
            round,
            round_step(round, Answer::<M>::Fees(told), elapsed, now, escalated),
            TypedTransactionView::Eip1559(
                Eip1559TransactionRequestView {
                    max_fee_per_gas: Some(fee),
                    max_priority_fee_per_gas: Some(priority),
                    ..t
                },
            ),
        ),
{
    let network = match told {
        Some(fees) => PricesView { fee: fees.fee@, priority: fees.priority@ },
        None => PricesView { fee: 0, priority: 0 },
    };
    law_each_fee_is_the_largest(
        t,
        fee_before,
        priority_before,
        escalated,
        network,
        fee,
        priority,
    );
}

/// A transaction that was broadcast anew is kept with the new hash, the new fees and the time of
/// the broadcast, and the round goes on to the next.
pub proof fn law_successful_broadcast<M>(
    round: RoundView,
    tx: TypedTransactionView,
    hash: H256,
    elapsed: u64,
    now: Instant,
    escalated: PricesView,
)
    requires
        round.wf(),
        round.stage == StageView::Broadcast(tx),
    ensures
        round_step(round, Answer::<M>::Sent(Ok(hash)), elapsed, now, escalated) == with_kept(
            round,
            MonitoredTransactionView {
                hash: Some(hash),
                inner: tx,
                creation_time: now,
                ..round.txs[round.next as int]
            },
        ),
{
}

/// After a failed broadcast the transaction leaves where the message says that the nonce is too
/// low, whatever else it says. It is kept with the new fees, but with the old hash and time, where
/// the message holds one of the four known errors. After any other error it leaves.
pub proof fn law_failed_broadcast<M>(
    round: RoundView,
    tx: TypedTransactionView,
    message: String,
    elapsed: u64,
    now: Instant,
    escalated: PricesView,
)
    requires
        round.wf(),
        round.stage == StageView::Broadcast(tx),
    ensures
        ({
            let after = round_step(
                round,
                Answer::<M>::Sent(Err(message)),
                elapsed,
                now,
                escalated,
            );
            let nonce = occurs_in("nonce too low"@, message@);
            let known = occurs_in("replacement transaction underpriced"@, message@)
                || occurs_in("already known"@, message@) || occurs_in(
                "Fair pubdata price too high"@,
                message@,
            ) || occurs_in("insufficient fee"@, message@);
            after == (if !nonce && known {
                with_kept(
                    round,
                    MonitoredTransactionView { inner: tx, ..round.txs[round.next as int] },
                )
            } else {
                without_current(round)
            })
        }),
{
    law_kinds_of_failure(message@);
}

/// Whether an answer is of the kind that a stage waits for.
pub open spec fn is_waited_for<M>(stage: StageView, answer: Answer<M>) -> bool {
    ||| stage is Block && answer is Block
    ||| stage is Receipt && answer is Receipt
    ||| stage is Time && answer is Time
    ||| stage is GasPrice && answer is GasPrice
    ||| stage is Fees && answer is Fees
    ||| stage is Broadcast && answer is Sent
}

/// An answer that is not waited for changes nothing and is no error; a round that is over stays as
/// it is.
pub proof fn law_other_answers_change_nothing<M>(
    round: RoundView,
    answer: Answer<M>,
    elapsed: u64,
    now: Instant,
    escalated: PricesView,
)
    requires
        !is_waited_for(round.stage, answer),
    ensures
        round_step(round, answer, elapsed, now, escalated) == round,
        round_result(round, answer) is Ok,
{
}

/// The caller is told of an error if and only if a receipt was waited for and could not be had,
/// and then of that very error.
pub proof fn law_only_a_receipt_fails<M>(round: RoundView, answer: Answer<M>)
    ensures
        round_result(round, answer) matches Err(GasEscalatorError::MiddlewareError(e)) ==> {
            &&& round.stage is Receipt
            &&& answer == Answer::Receipt(Err::<bool, M>(e))
        },
        answer matches Answer::Receipt(Err(e)) ==> (round.stage is Receipt ==> round_result(
            round,
            answer,
        ) == Err::<(), GasEscalatorError<M>>(GasEscalatorError::MiddlewareError(e))),
{
}

/// What a round asks for is what it waits for, about its current transaction: the receipt by the
/// hash, the fees for the base fee of the latest block or for 50 gwei, and the broadcast for the
/// block that the transaction was sent for.
pub proof fn law_actions(round: RoundView)
    requires
        round.wf(),
    ensures
        ({
            let action = round_action(round);
            let current = round.txs[round.next as int];
            &&& round.stage is Block ==> action is FetchBlock
            &&& round.stage is Receipt ==> action == ActionView::FetchReceipt(current.hash->0)
                && current.hash is Some
            &&& round.stage is Time ==> action is MeasureTime
            &&& round.stage is GasPrice ==> action is FetchGasPrice
            &&& round.stage is Fees && round.base_fee is Some ==> action == ActionView::FetchFees(
                round.base_fee->0@,
            )
            &&& round.stage is Fees && round.base_fee is None ==> action == ActionView::FetchFees(
                50_000_000_000,
            )
            &&& round.stage matches StageView::Broadcast(tx) ==> action == ActionView::Broadcast(
                tx,
                current.block,
            )
            &&& round.stage is Done ==> action is Stop
        }),
{
}

/// No answer changes the transactions that a round is over, and none but that about the block
/// changes the base fee.
pub proof fn law_round_keeps_its_input<M>(
    round: RoundView,
    answer: Answer<M>,
    elapsed: u64,
    now: Instant,
    escalated: PricesView,
)
    ensures
        round_step(round, answer, elapsed, now, escalated).txs == round.txs,
        !(answer is Block) ==> round_step(round, answer, elapsed, now, escalated).base_fee
            == round.base_fee,
{
}

/// What the escalator says matters only where it is asked.
pub proof fn law_escalator_is_asked_where_it_matters<M>(
    round: RoundView,
    answer: Answer<M>,
    elapsed: u64,
    now: Instant,
    escalated: PricesView,
    other: PricesView,
)
    requires
        round_step(round, answer, elapsed, now, escalated) != round_step(
            round,
            answer,
            elapsed,
            now,
            other,
        ),
    ensures
        consulted(round, answer, elapsed) is Some,
{
}

/// Where the escalator is asked, it is asked about the time that was measured for this
/// transaction: in the same step, or before the network was asked.
pub proof fn law_escalator_is_asked_about_the_measured_time<M>(
    round: RoundView,
    answer: Answer<M>,
    elapsed: u64,
    time: u64,
)
    requires
        consulted(round, answer, elapsed) == Some(time),
    ensures
        round.stage is Time ==> time == elapsed,
        round.stage matches StageView::GasPrice(measured) ==> time == measured,
        round.stage matches StageView::Fees(measured) ==> time == measured,
        round.stage is Time || round.stage is GasPrice || round.stage is Fees,
{
}

/// The models of stages and actions show what these hold.
pub proof fn law_stages_and_actions_are_shown(stage: Stage, action: Action)
    ensures
        stage is Block <==> stage@ is Block,
        stage is Receipt <==> stage@ is Receipt,
        stage is Time <==> stage@ is Time,
        stage is Done <==> stage@ is Done,
        stage matches Stage::GasPrice(time) ==> stage@ == StageView::GasPrice(time),
        stage matches Stage::Fees(time) ==> stage@ == StageView::Fees(time),
        stage matches Stage::Broadcast(tx) ==> stage@ == StageView::Broadcast(tx@),
        action is FetchBlock <==> action@ is FetchBlock,
        action is MeasureTime <==> action@ is MeasureTime,
        action is FetchGasPrice <==> action@ is FetchGasPrice,
        action is Stop <==> action@ is Stop,
        action matches Action::FetchReceipt(hash) ==> action@ == ActionView::FetchReceipt(hash),
        action matches Action::FetchFees(fee) ==> action@ == ActionView::FetchFees(fee@),
        action matches Action::Broadcast(tx, block) ==> action@ == ActionView::Broadcast(
            tx@,
            block,
        ),
{
}

} // verus!
