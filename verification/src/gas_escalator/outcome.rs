//! What a whole round comes to: what becomes of each transaction, told apart from the steps in
//! which the round finds it out.

use crate::gas_escalator::sending::after_broadcast;
use crate::gas_escalator::monitored::{
    bids, bids_no_less, law_bids_never_fall, law_escalation_changes_only_fees, no_prices, outbids,
    question_of, with_prices, without_fees, MonitoredTransactionView, Prices, PricesView,
    Question,
};
use crate::gas_escalator::round::{
    fee_prices, gas_price_prices, law_round_ends, new_round, remaining, round_step, Answer,
    RoundView, StageView,
};
use crate::primitives::{H256, U256};
use instant::Instant;
use vstd::prelude::*;

verus! {

/// All that a round may be told about one transaction. What it does not ask for plays no role.
pub struct Told {
    /// Whether there is a receipt.
    pub included: bool,
    /// The time since the first broadcast.
    pub elapsed: u64,
    /// The gas price of the network, if it could be had.
    pub gas_price: Option<U256>,
    /// The fees of the network, if they could be had.
    pub fees: Option<Prices>,
    /// What the escalator says.
    pub escalated: PricesView,
    /// The outcome of the broadcast.
    pub sent: Result<H256, String>,
    /// The time of the broadcast.
    pub now: Instant,
}

/// The prices of the network that count for a transaction.
pub open spec fn network_prices(tx: MonitoredTransactionView, told: Told) -> PricesView {
    match question_of(tx.inner) {
        Question::GasPrice => gas_price_prices(told.gas_price),
        Question::Fees => fee_prices(told.fees),
        _ => no_prices(),
    }
}

/// What is watched of a transaction after a round. One that was included, or has no price that
/// could be raised, leaves. One whose fees stay as they are stays as it is. One with new fees
/// is broadcast, and the outcome of that decides.
pub open spec fn fate(tx: MonitoredTransactionView, told: Told) -> Option<
    MonitoredTransactionView,
> {
    if tx.hash is Some && told.included {
        None
    } else {
        match with_prices(tx.inner, told.escalated, network_prices(tx, told)) {
            None => None,
            Some(inner) => if inner == tx.inner {
                Some(tx)
            } else {
                match after_broadcast(told.sent, told.now, tx) {
                    None => None,
                    Some((hash, creation_time)) => Some(
                        MonitoredTransactionView { hash, inner, creation_time, ..tx },
                    ),
                }
            },
        }
    }
}

/// What is watched of some transactions after a round, in the order of old.
pub open spec fn fates(txs: Seq<MonitoredTransactionView>, told: Seq<Told>) -> Seq<
    MonitoredTransactionView,
>
    decreases txs.len(),
{
    if txs.len() == 0 {
        Seq::empty()
    } else {
        let before = fates(txs.drop_last(), told.drop_last());
        match fate(txs.last(), told.last()) {
            Some(tx) => before.push(tx),
            None => before,
        }
    }
}

/// The answer to what a round waits for.
pub open spec fn reply<M>(stage: StageView, told: Told) -> Answer<M> {
    match stage {
        StageView::Block => Answer::Block(None),
        StageView::Receipt => Answer::Receipt(Ok(told.included)),
        StageView::Time => Answer::Time,
        StageView::GasPrice(_) => Answer::GasPrice(told.gas_price),
        StageView::Fees(_) => Answer::Fees(told.fees),
        StageView::Broadcast(_) => Answer::Sent(told.sent),
        StageView::Done => Answer::Time,
    }
}

/// The round one answer later.
pub open spec fn step<M>(round: RoundView, told: Told) -> RoundView {
    round_step(
        round,
        reply::<M>(round.stage, told),
        told.elapsed,
        told.now,
        told.escalated,
    )
}

/// The round once its current transaction is decided.
pub open spec fn decide<M>(round: RoundView, told: Told) -> RoundView
    decreases remaining(round),
    when round.wf() && !(round.stage is Done)
{
    proof {
        let answer = reply::<M>(round.stage, told);
        law_round_ends(round, answer, told.elapsed, told.now, told.escalated);
    }
    let after = step::<M>(round, told);
    if after.next == round.next {
        decide::<M>(after, told)
    } else {
        after
    }
}

/// The round once as many transactions are decided as something is told about.
pub open spec fn run<M>(round: RoundView, told: Seq<Told>) -> RoundView
    decreases told.len(),
{
    if told.len() == 0 {
        round
    } else {
        decide::<M>(run::<M>(round, told.drop_last()), told.last())
    }
}

/// A round keeps of its current transaction what is due, touches nothing else, and goes on to
/// the next transaction.
pub proof fn law_transaction_is_decided<M>(round: RoundView, told: Told)
    requires
        round.wf(),
        round.next < round.txs.len(),
        round.stage == round.begin().stage,
    ensures
        decide::<M>(round, told) == (RoundView {
            next: round.next + 1,
            kept: match fate(round.current(), told) {
                Some(tx) => round.kept.push(tx),
                None => round.kept,
            },
            ..round
        }).begin(),
{
    reveal_with_fuel(decide, 5);
}

/// A round over some transactions, once it was told of the latest block and about each of
/// them, is over, and has kept of them what is due, in the order of old.
pub proof fn law_round_keeps_what_is_due<M>(
    txs: Seq<MonitoredTransactionView>,
    base_fee: Option<U256>,
    told: Seq<Told>,
    elapsed: u64,
    now: Instant,
    escalated: PricesView,
)
    requires
        told.len() == txs.len(),
    ensures
        ({
            let begun = round_step(
                new_round(txs),
                Answer::<M>::Block(base_fee),
                elapsed,
                now,
                escalated,
            );
            let end = run::<M>(begun, told);
            &&& end.stage is Done
            &&& end.kept == fates(txs, told)
        }),
{
    let begun = RoundView { base_fee, ..new_round(txs) }.begin();
    lemma_run::<M>(begun, told);
    assert(txs.take(told.len() as int) =~= txs);
}

/// The round after some of its transactions.
proof fn lemma_run<M>(begun: RoundView, told: Seq<Told>)
    requires
        begun.next == 0,
        begun.kept.len() == 0,
        begun == begun.begin(),
        told.len() <= begun.txs.len(),
    ensures
        run::<M>(begun, told) == (RoundView {
            next: told.len(),
            kept: fates(begun.txs.take(told.len() as int), told),
            ..begun
        }).begin(),
        fates(begun.txs.take(told.len() as int), told).len() <= told.len(),
    decreases told.len(),
{
    let txs = begun.txs.take(told.len() as int);
    if told.len() == 0 {
        assert(begun.kept =~= Seq::empty());
    } else {
        lemma_run::<M>(begun, told.drop_last());
        assert(txs.drop_last() =~= begun.txs.take(told.len() - 1));
        law_transaction_is_decided::<M>(run::<M>(begun, told.drop_last()), told.last());
    }
}

/// Where a receipt cannot be asked for after some transactions were decided, the round is over;
/// it has kept of those what is due, and all others just as they were.
pub proof fn law_failed_round_keeps_what_is_due<M>(
    txs: Seq<MonitoredTransactionView>,
    base_fee: Option<U256>,
    told: Seq<Told>,
    e: M,
    elapsed: u64,
    now: Instant,
    escalated: PricesView,
)
    requires
        told.len() < txs.len(),
        txs[told.len() as int].hash is Some,
    ensures
        ({
            let begun = round_step(
                new_round(txs),
                Answer::<M>::Block(base_fee),
                elapsed,
                now,
                escalated,
            );
            let end = round_step(
                run::<M>(begun, told),
                Answer::Receipt(Err::<bool, M>(e)),
                elapsed,
                now,
                escalated,
            );
            &&& end.stage is Done
            &&& end.kept == fates(txs.take(told.len() as int), told) + txs.skip(told.len() as int)
        }),
{
    let begun = RoundView { base_fee, ..new_round(txs) }.begin();
    lemma_run::<M>(begun, told);
}

/// What is watched of a transaction after several rounds, one told after the other.
pub open spec fn fate_after_rounds(tx: MonitoredTransactionView, told: Seq<Told>) -> Option<
    MonitoredTransactionView,
>
    decreases told.len(),
{
    if told.len() == 0 {
        Some(tx)
    } else {
        match fate_after_rounds(tx, told.drop_last()) {
            Some(before) => fate(before, told.last()),
            None => None,
        }
    }
}

/// However many rounds go over a transaction and however often it is broadcast anew, what it
/// bid at first and when it was first broadcast stay. So an escalator is always asked about
/// the initial prices, and about the time since the first broadcast.
pub proof fn law_initial_prices_and_time_stay(tx: MonitoredTransactionView, told: Seq<Told>)
    ensures
        fate_after_rounds(tx, told) matches Some(after) ==> {
            &&& after.initial_prices == tx.initial_prices
            &&& after.first_broadcast == tx.first_broadcast
            &&& after.block == tx.block
        },
    decreases told.len(),
{
    if told.len() > 0 {
        law_initial_prices_and_time_stay(tx, told.drop_last());
    }
}

/// A round that sends a transaction again sends the same one with a higher fee and none lower;
/// where that succeeds, it is watched under its new hash from the time of the broadcast on.
pub proof fn law_sent_again_with_a_higher_fee(tx: MonitoredTransactionView, told: Told, hash: H256)
    requires
        !(tx.hash is Some && told.included),
        told.sent == Ok::<H256, String>(hash),
    ensures
        with_prices(tx.inner, told.escalated, network_prices(tx, told)) matches Some(new_tx)
            ==> new_tx != tx.inner ==> {
            &&& without_fees(new_tx) == without_fees(tx.inner)
            &&& outbids(new_tx, tx.inner)
            &&& fate(tx, told) == Some(
                MonitoredTransactionView {
                    hash: Some(hash),
                    inner: new_tx,
                    creation_time: told.now,
                    ..tx
                },
            )
        },
{
    let network = network_prices(tx, told);
    law_escalation_changes_only_fees(tx.inner, told.escalated, network);
    law_bids_never_fall(tx.inner, told.escalated, network);
}

/// However many rounds go over a transaction, whatever they are told, it stays the same but for
/// its fees, and none of these ever falls.
pub proof fn law_fees_never_fall_over_rounds(tx: MonitoredTransactionView, told: Seq<Told>)
    ensures
        fate_after_rounds(tx, told) matches Some(after) ==> {
            &&& without_fees(after.inner) == without_fees(tx.inner)
            &&& bids_no_less(after.inner, tx.inner)
        },
    decreases told.len(),
{
    if told.len() > 0 {
        law_fees_never_fall_over_rounds(tx, told.drop_last());
        if let Some(before) = fate_after_rounds(tx, told.drop_last()) {
            let (last, network) = (told.last(), network_prices(before, told.last()));
            law_escalation_changes_only_fees(before.inner, last.escalated, network);
            law_bids_never_fall(before.inner, last.escalated, network);
            if let Some(after) = fate(before, last) {
                assert forall|i: int| 0 <= i < bids(tx.inner).len() implies bids(after.inner)[i]
                    >= bids(tx.inner)[i] by {
                    assert(bids(after.inner)[i] >= bids(before.inner)[i]);
                }
            }
        }
    }
}

} // verus!
