//! One round over the watched transactions. The round says what it needs to know next, and
//! goes on when it is told.

use crate::gas_escalator::sending::{
    after_broadcast, is_retryable, monitored_views, nonce_error, occurs_in, tx_to_monitor,
    GasEscalatorError,
};
use crate::gas_escalator::monitored::{
    base_fee_or_default, bids_no_less, clock, escalated_by, law_bids_never_fall,
    law_escalation_changes_only_fees, may_be_now, may_have_elapsed, no_prices, outbids,
    question_of, with_prices, without_fees, BlockId, GasEscalator, MonitoredTransaction,
    MonitoredTransactionView, Prices, PricesView, Question, DEFAULT_BASE_FEE,
};
use crate::primitives::{opt_view, H256, U256};
use crate::typed_transaction::{TypedTransaction, TypedTransactionView};
use instant::Instant;
use vstd::prelude::*;

verus! {

/// What a round waits for.
#[derive(Debug)]
pub enum Stage {
    /// The latest block.
    Block,
    /// Whether the current transaction was included.
    Receipt,
    /// How long ago the current transaction was first broadcast.
    Time,
    /// The gas price of the network; the time is known.
    GasPrice(u64),
    /// The fees of the network; the time is known.
    Fees(u64),
    /// The broadcast of this transaction in place of the current one.
    Broadcast(TypedTransaction),
    /// Nothing.
    Done,
}

/// The model of a [`Stage`].
pub enum StageView {
    Block,
    Receipt,
    Time,
    GasPrice(u64),
    Fees(u64),
    Broadcast(TypedTransactionView),
    Done,
}

impl View for Stage {
    type V = StageView;

    open spec fn view(&self) -> StageView {
        match self {
            Stage::Block => StageView::Block,
            Stage::Receipt => StageView::Receipt,
            Stage::Time => StageView::Time,
            Stage::GasPrice(t) => StageView::GasPrice(*t),
            Stage::Fees(t) => StageView::Fees(*t),
            Stage::Broadcast(tx) => StageView::Broadcast(tx@),
            Stage::Done => StageView::Done,
        }
    }
}

/// What a round is told.
#[derive(Debug)]
pub enum Answer<M> {
    /// The base fee of the latest block, if there is a block and a fee in it.
    Block(Option<U256>),
    /// Whether there is a receipt.
    Receipt(Result<bool, M>),
    /// To look at the clock.
    Time,
    /// The gas price of the network, if it could be had.
    GasPrice(Option<U256>),
    /// The fees of the network, if they could be had.
    Fees(Option<Prices>),
    /// The hash of the transaction that was broadcast, or the message of the error.
    Sent(Result<H256, String>),
}

/// What a round asks for.
#[derive(Debug)]
pub enum Action {
    FetchBlock,
    FetchReceipt(H256),
    MeasureTime,
    FetchGasPrice,
    /// Estimate the fees for this base fee.
    FetchFees(U256),
    Broadcast(TypedTransaction, Option<BlockId>),
    Stop,
}

/// The model of an [`Action`].
pub enum ActionView {
    FetchBlock,
    FetchReceipt(H256),
    MeasureTime,
    FetchGasPrice,
    FetchFees(nat),
    Broadcast(TypedTransactionView, Option<BlockId>),
    Stop,
}

impl View for Action {
    type V = ActionView;

    open spec fn view(&self) -> ActionView {
        match self {
            Action::FetchBlock => ActionView::FetchBlock,
            Action::FetchReceipt(hash) => ActionView::FetchReceipt(*hash),
            Action::MeasureTime => ActionView::MeasureTime,
            Action::FetchGasPrice => ActionView::FetchGasPrice,
            Action::FetchFees(fee) => ActionView::FetchFees(fee@),
            Action::Broadcast(tx, block) => ActionView::Broadcast(tx@, *block),
            Action::Stop => ActionView::Stop,
        }
    }
}

/// A round over watched transactions.
#[derive(Debug)]
pub struct EscalationRound {
    txs: Vec<MonitoredTransaction>,
    next: usize,
    kept: Vec<MonitoredTransaction>,
    base_fee: Option<U256>,
    stage: Stage,
}

/// The model of an [`EscalationRound`]: the transactions, how many of them are decided, what
/// goes on being watched of those, the base fee of the latest block, and what the round waits
/// for.
#[verifier::ext_equal]
pub struct RoundView {
    pub txs: Seq<MonitoredTransactionView>,
    pub next: nat,
    pub kept: Seq<MonitoredTransactionView>,
    pub base_fee: Option<U256>,
    pub stage: StageView,
}

impl View for EscalationRound {
    type V = RoundView;

    closed spec fn view(&self) -> RoundView {
        RoundView {
            txs: monitored_views(self.txs@),
            next: self.next as nat,
            kept: monitored_views(self.kept@),
            base_fee: self.base_fee,
            stage: self.stage@,
        }
    }
}

impl RoundView {
    /// Whether the round waits for something about a transaction that there is.
    pub open spec fn wf(self) -> bool {
        &&& self.next <= self.txs.len()
        &&& self.kept.len() <= self.next
        &&& !(self.stage is Block) && !(self.stage is Done) ==> self.next < self.txs.len()
        &&& self.stage is Block ==> self.next == 0
        &&& self.stage is Receipt ==> self.current().hash is Some
    }

    /// The transaction that the round is about to decide.
    pub open spec fn current(self) -> MonitoredTransactionView {
        self.txs[self.next as int]
    }

    /// The round at its current transaction: one with a hash may have been included, which
    /// must be asked first. Behind the last transaction the round is over.
    pub open spec fn begin(self) -> RoundView {
        RoundView {
            stage: if self.next >= self.txs.len() {
                StageView::Done
            } else if self.current().hash is Some {
                StageView::Receipt
            } else {
                StageView::Time
            },
            ..self
        }
    }

    /// The round after its current transaction was dropped.
    pub open spec fn drop_current(self) -> RoundView {
        RoundView { next: self.next + 1, ..self }.begin()
    }

    /// The round after its current transaction was replaced by `new_tx`, which is watched with
    /// this hash and time; without them it is dropped. What was bid at first, and when, stays.
    pub open spec fn replace_current(
        self,
        new_tx: TypedTransactionView,
        watch: Option<(Option<H256>, Instant)>,
    ) -> RoundView {
        match watch {
            Some((hash, creation_time)) => RoundView {
                next: self.next + 1,
                kept: self.kept.push(
                    MonitoredTransactionView {
                        hash,
                        inner: new_tx,
                        creation_time,
                        ..self.current()
                    },
                ),
                ..self
            }.begin(),
            None => self.drop_current(),
        }
    }

    /// The round once it is known what its current transaction is escalated to. One that is
    /// not is dropped; one whose fees stay is kept as it is; one with new fees is broadcast.
    pub open spec fn settle(self, new_tx: Option<TypedTransactionView>) -> RoundView {
        match new_tx {
            None => self.drop_current(),
            Some(tx) => if tx == self.current().inner {
                self.replace_current(
                    tx,
                    Some((self.current().hash, self.current().creation_time)),
                )
            } else {
                RoundView { stage: StageView::Broadcast(tx), ..self }
            },
        }
    }
}

/// Whether an answer is one to what the round waits for.
pub open spec fn answers<M>(stage: StageView, answer: Answer<M>) -> bool {
    match stage {
        StageView::Block => answer is Block,
        StageView::Receipt => answer is Receipt,
        StageView::Time => answer is Time,
        StageView::GasPrice(_) => answer is GasPrice,
        StageView::Fees(_) => answer is Fees,
        StageView::Broadcast(_) => answer is Sent,
        StageView::Done => false,
    }
}

/// The round after an answer. `elapsed` and `now` are readings of the clock, `escalated` is
/// what the escalator says. An answer to something else is ignored. If a receipt cannot be
/// asked for, the round is over, and the transactions that are not decided yet are kept.
pub open spec fn round_step<M>(
    round: RoundView,
    answer: Answer<M>,
    elapsed: u64,
    now: Instant,
    escalated: PricesView,
) -> RoundView {
    if !answers(round.stage, answer) {
        round
    } else {
        match answer {
            Answer::Block(base_fee) => RoundView { base_fee, ..round }.begin(),
            Answer::Receipt(Err(_)) => RoundView {
                next: round.txs.len(),
                kept: round.kept + round.txs.skip(round.next as int),
                stage: StageView::Done,
                ..round
            },
            Answer::Receipt(Ok(included)) => if included {
                round.drop_current()
            } else {
                RoundView { stage: StageView::Time, ..round }
            },
            Answer::Time => match question_of(round.current().inner) {
                Question::NotEscalated => round.drop_current(),
                Question::Nothing => round.settle(
                    with_prices(round.current().inner, escalated, no_prices()),
                ),
                Question::GasPrice => RoundView { stage: StageView::GasPrice(elapsed), ..round },
                Question::Fees => RoundView { stage: StageView::Fees(elapsed), ..round },
            },
            Answer::GasPrice(price) => round.settle(
                with_prices(round.current().inner, escalated, gas_price_prices(price)),
            ),
            Answer::Fees(fees) => round.settle(
                with_prices(round.current().inner, escalated, fee_prices(fees)),
            ),
            Answer::Sent(sent) => round.replace_current(
                round.stage->Broadcast_0,
                after_broadcast(sent, now, round.current()),
            ),
        }
    }
}

/// The network's prices where it told its gas price, 0 where it did not.
pub open spec fn gas_price_prices(price: Option<U256>) -> PricesView {
    PricesView {
        fee: match price {
            Some(p) => p@,
            None => 0,
        },
        priority: 0,
    }
}

/// The network's prices where it told its fees, 0 where it did not.
pub open spec fn fee_prices(fees: Option<Prices>) -> PricesView {
    match fees {
        Some(p) => p@,
        None => no_prices(),
    }
}

/// What the caller is told of an answer: the error, where a receipt could not be asked for.
pub open spec fn round_result<M>(round: RoundView, answer: Answer<M>) -> Result<
    (),
    GasEscalatorError<M>,
> {
    match (round.stage, answer) {
        (StageView::Receipt, Answer::Receipt(Err(e))) => Err(GasEscalatorError::MiddlewareError(e)),
        _ => Ok(()),
    }
}

/// The time after which the escalator is asked upon an answer, if it is.
pub open spec fn consulted<M>(round: RoundView, answer: Answer<M>, elapsed: u64) -> Option<u64> {
    match (round.stage, answer) {
        (StageView::Time, Answer::Time) => if question_of(round.current().inner)
            == Question::Nothing {
            Some(elapsed)
        } else {
            None
        },
        (StageView::GasPrice(t), Answer::GasPrice(_)) => Some(t),
        (StageView::Fees(t), Answer::Fees(_)) => Some(t),
        _ => None,
    }
}

/// What a round asks for.
pub open spec fn round_action(round: RoundView) -> ActionView {
    match round.stage {
        StageView::Block => ActionView::FetchBlock,
        StageView::Receipt => ActionView::FetchReceipt(round.current().hash->0),
        StageView::Time => ActionView::MeasureTime,
        StageView::GasPrice(_) => ActionView::FetchGasPrice,
        StageView::Fees(_) => ActionView::FetchFees(
            match round.base_fee {
                Some(fee) => fee@,
                None => DEFAULT_BASE_FEE as nat,
            },
        ),
        StageView::Broadcast(tx) => ActionView::Broadcast(tx, round.current().block),
        StageView::Done => ActionView::Stop,
    }
}

impl EscalationRound {
    /// A round over these transactions; it begins with the latest block.
    pub fn new(txs: Vec<MonitoredTransaction>) -> (r: EscalationRound)
        ensures
            r@ == new_round(monitored_views(txs@)),
            r@.wf(),
    {
        let r = EscalationRound {
            txs,
            next: 0,
            kept: Vec::new(),
            base_fee: None,
            stage: Stage::Block,
        };
        assert(r@ =~= new_round(monitored_views(txs@)));
        r
    }

    /// What the round asks for.
    pub fn action(&self) -> (r: Action)
        requires
            self@.wf(),
        ensures
            r@ == round_action(self@),
    {
        match &self.stage {
            Stage::Block => Action::FetchBlock,
            Stage::Receipt => match self.txs[self.next].hash {
                Some(hash) => Action::FetchReceipt(hash),
                None => Action::MeasureTime,
            },
            Stage::Time => Action::MeasureTime,
            Stage::GasPrice(_) => Action::FetchGasPrice,
            Stage::Fees(_) => Action::FetchFees(base_fee_or_default(self.base_fee)),
            Stage::Broadcast(tx) => Action::Broadcast(tx.clone(), self.txs[self.next].block),
            Stage::Done => Action::Stop,
        }
    }

    /// The transaction that the round is about to decide, if there is one left.
    pub fn current(&self) -> (r: Option<&MonitoredTransaction>)
        ensures
            match r {
                Some(tx) => self@.next < self@.txs.len() && tx@ == self@.current(),
                None => self@.next >= self@.txs.len(),
            },
    {
        if self.next < self.txs.len() {
            Some(&self.txs[self.next])
        } else {
            None
        }
    }

    /// Goes to the current transaction.
    fn begin(&mut self)
        requires
            old(self)@.next <= old(self)@.txs.len(),
            old(self)@.kept.len() <= old(self)@.next,
        ensures
            final(self)@ == old(self)@.begin(),
            final(self)@.wf(),
    {
        self.stage = if self.next >= self.txs.len() {
            Stage::Done
        } else if self.txs[self.next].hash.is_some() {
            Stage::Receipt
        } else {
            Stage::Time
        };
    }

    /// Drops the current transaction.
    fn drop_current(&mut self)
        requires
            old(self)@.wf(),
            old(self)@.next < old(self)@.txs.len(),
        ensures
            final(self)@ == old(self)@.drop_current(),
            final(self)@.wf(),
    {
        assert(self.next < self.txs.len());
        self.next = self.next + 1;
        self.begin();
    }

    /// Replaces the current transaction.
    fn replace_current(&mut self, new_tx: TypedTransaction, watch: Option<(Option<H256>, Instant)>)
        requires
            old(self)@.wf(),
            old(self)@.next < old(self)@.txs.len(),
        ensures
            final(self)@ == old(self)@.replace_current(new_tx@, watch),
            final(self)@.wf(),
    {
        let ghost before = self.kept@;
        if let Some((hash, creation_time)) = watch {
            let old = &self.txs[self.next];
            let watched = MonitoredTransaction {
                hash,
                inner: new_tx,
                creation_time,
                block: old.block,
                initial_prices: old.initial_prices,
                first_broadcast: old.first_broadcast,
            };
            self.kept.push(watched);
            assert(monitored_views(self.kept@) =~= monitored_views(before).push(watched@));
        }
        assert(self.next < self.txs.len());
        self.next = self.next + 1;
        self.begin();
    }

    /// Keeps the transactions that are not decided yet as they are.
    fn keep_rest(&mut self)
        requires
            old(self)@.next <= old(self)@.txs.len(),
        ensures
            final(self)@ == (RoundView {
                next: old(self)@.txs.len(),
                kept: old(self)@.kept + old(self)@.txs.skip(old(self)@.next as int),
                ..old(self)@
            }),
    {
        let ghost before = self@;
        assert(before.kept + before.txs.subrange(before.next as int, before.next as int)
            =~= before.kept);
        while self.next < self.txs.len()
            invariant
                before.next <= self@.next <= self@.txs.len(),
                self@ == (RoundView {
                    next: self@.next,
                    kept: before.kept + before.txs.subrange(
                        before.next as int,
                        self@.next as int,
                    ),
                    ..before
                }),
            decreases self.txs.len() - self.next,
        {
            let ghost (kept, next) = (self.kept@, self@.next as int);
            let tx = self.txs[self.next].clone();
            self.kept.push(tx);
            self.next = self.next + 1;
            assert(monitored_views(self.kept@) =~= monitored_views(kept).push(tx@));
            assert(before.txs.subrange(before.next as int, next + 1) =~= before.txs.subrange(
                before.next as int,
                next,
            ).push(before.txs[next]));
            assert(self@.kept =~= before.kept + before.txs.subrange(
                before.next as int,
                next + 1,
            ));
        }
        assert(before.txs.subrange(before.next as int, before.txs.len() as int)
            =~= before.txs.skip(before.next as int));
    }

    /// Goes on once it is known what the current transaction is escalated to.
    fn settle(&mut self, new_tx: Option<TypedTransaction>)
        requires
            old(self)@.wf(),
            old(self)@.next < old(self)@.txs.len(),
        ensures
            final(self)@ == old(self)@.settle(opt_view(new_tx)),
            final(self)@.wf(),
    {
        match new_tx {
            None => self.drop_current(),
            Some(tx) => {
                // the gas price was not escalated: the old transaction goes on being watched
                if self.txs[self.next].inner == tx {
                    let watch = Some(
                        (self.txs[self.next].hash, self.txs[self.next].creation_time),
                    );
                    self.replace_current(tx, watch);
                } else {
                    self.stage = Stage::Broadcast(tx);
                }
            },
        }
    }

    /// The prices that the escalator gives upon an answer, where it is asked.
    fn consult<E: GasEscalator, M>(&self, escalator: &E, answer: &Answer<M>, elapsed: u64) -> (r:
        Prices)
        requires
            self@.wf(),
        ensures
            consulted(self@, *answer, elapsed) matches Some(time) ==> escalated_by(
                *escalator,
                self@.current().inner,
                self@.current().initial_prices,
                time,
                r,
            ),
    {
        match (&self.stage, answer) {
            (Stage::Time, Answer::Time) => if self.txs[self.next].question() == Question::Nothing {
                self.txs[self.next].escalated_prices(escalator, elapsed)
            } else {
                Prices::zero()
            },
            (Stage::GasPrice(time), Answer::GasPrice(_)) => self.txs[self.next].escalated_prices(
                escalator,
                *time,
            ),
            (Stage::Fees(time), Answer::Fees(_)) => self.txs[self.next].escalated_prices(
                escalator,
                *time,
            ),
            _ => Prices::zero(),
        }
    }

    /// Goes on after an answer, with known readings of the clock and known prices of the
    /// escalator.
    pub fn advance_with<M>(
        &mut self,
        answer: Answer<M>,
        elapsed: u64,
        now: Instant,
        escalated: Prices,
    ) -> (r: Result<(), GasEscalatorError<M>>)
        requires
            old(self)@.wf(),
        ensures
            final(self)@ == round_step(old(self)@, answer, elapsed, now, escalated@),
            final(self)@.wf(),
            r == round_result(old(self)@, answer),
    {
        let mut stage = Stage::Done;
        core::mem::swap(&mut stage, &mut self.stage);
        match (stage, answer) {
            (Stage::Block, Answer::Block(base_fee)) => {
                self.base_fee = base_fee;
                self.begin();
            },
            (Stage::Receipt, Answer::Receipt(receipt)) => {
                match receipt {
                    Err(e) => {
                        // what is not known to be included goes on being watched
                        self.keep_rest();
                        return Err(GasEscalatorError::MiddlewareError(e));
                    },
                    Ok(included) => {
                        if included {
                            // the transaction was already included
                            self.drop_current();
                        } else {
                            self.stage = Stage::Time;
                        }
                    },
                }
            },
            (Stage::Time, Answer::Time) => {
                match self.txs[self.next].question() {
                    // a price is not set, or the transaction is of a kind that is not escalated
                    Question::NotEscalated => self.drop_current(),
                    Question::Nothing => {
                        let new_tx = self.txs[self.next].with_escalated_prices(
                            escalated,
                            Prices::zero(),
                        );
                        self.settle(new_tx);
                    },
                    Question::GasPrice => {
                        self.stage = Stage::GasPrice(elapsed);
                    },
                    Question::Fees => {
                        self.stage = Stage::Fees(elapsed);
                    },
                }
            },
            (Stage::GasPrice(_), Answer::GasPrice(price)) => {
                let mut network = Prices::zero();
                if let Some(fee) = price {
                    network.fee = fee;
                }
                let new_tx = self.txs[self.next].with_escalated_prices(escalated, network);
                self.settle(new_tx);
            },
            (Stage::Fees(_), Answer::Fees(fees)) => {
                let network = match fees {
                    Some(fees) => fees,
                    None => Prices::zero(),
                };
                let new_tx = self.txs[self.next].with_escalated_prices(escalated, network);
                self.settle(new_tx);
            },
            (Stage::Broadcast(new_tx), Answer::Sent(sent)) => {
                let watch = tx_to_monitor(sent, now, &self.txs[self.next]);
                self.replace_current(new_tx, watch);
            },
            (stage, _) => {
                self.stage = stage;
            },
        }
        Ok(())
    }

    /// Goes on after an answer. The escalator is asked about what the current transaction bid
    /// at first, and about the time since then.
    pub fn advance<E: GasEscalator, M>(&mut self, escalator: &E, answer: Answer<M>) -> (r: Result<
        (),
        GasEscalatorError<M>,
    >)
        requires
            old(self)@.wf(),
        ensures
            exists|elapsed: u64, now: Instant, escalated: Prices|
                may_be_now(now) && (old(self)@.stage is Time ==> may_have_elapsed(
                    old(self)@.current().first_broadcast,
                    elapsed,
                )) && (consulted(old(self)@, answer, elapsed) matches Some(time) ==> escalated_by(
                    *escalator,
                    old(self)@.current().inner,
                    old(self)@.current().initial_prices,
                    time,
                    escalated,
                )) && final(self)@ == #[trigger] round_step(
                    old(self)@,
                    answer,
                    elapsed,
                    now,
                    escalated@,
                ),
            final(self)@.wf(),
            r == round_result(old(self)@, answer),
    {
        let elapsed: u64 = match &self.stage {
            Stage::Time => self.txs[self.next].time_elapsed(),
            _ => 0,
        };
        let now = clock();
        let escalated = self.consult(escalator, &answer, elapsed);
        self.advance_with(answer, elapsed, now, escalated)
    }

    /// What goes on being watched after the round.
    pub fn finish(self) -> (r: Vec<MonitoredTransaction>)
        ensures
            monitored_views(r@) == self@.kept,
    {
        self.kept
    }
}

/// A round over these transactions, at its beginning.
pub open spec fn new_round(txs: Seq<MonitoredTransactionView>) -> RoundView {
    RoundView { txs, next: 0, kept: Seq::empty(), base_fee: None, stage: StageView::Block }
}

/// How far a round is from its end: less with each answer.
pub open spec fn remaining(round: RoundView) -> nat {
    match round.stage {
        StageView::Block => 5 * round.txs.len() + 1,
        StageView::Done => 0,
        _ => (5 * (round.txs.len() - round.next - 1) + stage_rank(round.stage)) as nat,
    }
}

/// How many answers the current transaction can still need.
pub open spec fn stage_rank(stage: StageView) -> nat {
    match stage {
        StageView::Receipt => 4,
        StageView::Time => 3,
        StageView::GasPrice(_) => 2,
        StageView::Fees(_) => 2,
        _ => 1,
    }
}

/// Each answer to what a round waits for brings the round nearer to its end, so a round over
/// `n` transactions is over after `5 n + 1` answers at most.
pub proof fn law_round_ends<M>(
    round: RoundView,
    answer: Answer<M>,
    elapsed: u64,
    now: Instant,
    escalated: PricesView,
)
    requires
        round.wf(),
        answers(round.stage, answer),
    ensures
        remaining(round_step(round, answer, elapsed, now, escalated)) < remaining(round),
        remaining(round) <= 5 * round.txs.len() + 1,
{
}

/// Whether one watched transaction stands for another: it is the same but for what it bids,
/// which is nothing less, and for the hash and the time of its last broadcast. What it bid at
/// first, and when, is the same too.
pub open spec fn stands_for(new: MonitoredTransactionView, old: MonitoredTransactionView) -> bool {
    &&& without_fees(new.inner) == without_fees(old.inner)
    &&& bids_no_less(new.inner, old.inner)
    &&& new.block == old.block
    &&& new.initial_prices == old.initial_prices
    &&& new.first_broadcast == old.first_broadcast
}

/// Whether the transactions of one list stand for some of another, one for one and in order.
pub open spec fn stand_for_some(
    new: Seq<MonitoredTransactionView>,
    old: Seq<MonitoredTransactionView>,
) -> bool
    decreases old.len(),
{
    if old.len() == 0 {
        new.len() == 0
    } else {
        ||| stand_for_some(new, old.drop_last())
        ||| new.len() > 0 && stands_for(new.last(), old.last()) && stand_for_some(
            new.drop_last(),
            old.drop_last(),
        )
    }
}

/// Whether a round has kept nothing but what stands for a transaction that it was begun with,
/// and is about to broadcast nothing but such a transaction with a higher fee and none lower.
pub open spec fn is_faithful(round: RoundView) -> bool {
    &&& round.wf()
    &&& stand_for_some(round.kept, round.txs.take(round.next as int))
    &&& round.stage matches StageView::Broadcast(tx) ==> without_fees(tx) == without_fees(
        round.current().inner,
    ) && outbids(tx, round.current().inner)
}

/// No transactions stand for some of any list.
proof fn lemma_none_stand_for_some(old: Seq<MonitoredTransactionView>)
    ensures
        stand_for_some(Seq::empty(), old),
    decreases old.len(),
{
    if old.len() > 0 {
        lemma_none_stand_for_some(old.drop_last());
    }
}

/// Transactions stand for themselves, also behind others that stand for some.
proof fn lemma_rest_stands_for_itself(
    new: Seq<MonitoredTransactionView>,
    old: Seq<MonitoredTransactionView>,
    rest: Seq<MonitoredTransactionView>,
)
    requires
        stand_for_some(new, old),
    ensures
        stand_for_some(new + rest, old + rest),
    decreases rest.len(),
{
    if rest.len() == 0 {
        assert(new + rest =~= new);
        assert(old + rest =~= old);
    } else {
        lemma_rest_stands_for_itself(new, old, rest.drop_last());
        assert((new + rest).drop_last() =~= new + rest.drop_last());
        assert((old + rest).drop_last() =~= old + rest.drop_last());
    }
}

/// A round is faithful at its beginning.
pub proof fn law_new_round_is_faithful(txs: Seq<MonitoredTransactionView>)
    ensures
        is_faithful(new_round(txs)),
{
    lemma_none_stand_for_some(txs.take(0));
}

/// A round stays faithful, whatever it is told: what goes on being watched is at each moment a
/// transaction that the round was begun with, with higher fees at most, each once at most and in
/// the order of old. What is broadcast is such a transaction with a higher fee and none lower.
pub proof fn law_round_stays_faithful<M>(
    round: RoundView,
    answer: Answer<M>,
    elapsed: u64,
    now: Instant,
    escalated: PricesView,
)
    requires
        is_faithful(round),
    ensures
        is_faithful(round_step(round, answer, elapsed, now, escalated)),
{
    let after = round_step(round, answer, elapsed, now, escalated);
    if answers(round.stage, answer) {
        let decided = round.txs.take(round.next as int);
        let rest = round.txs.skip(round.next as int);
        lemma_rest_stands_for_itself(round.kept, decided, rest);
        assert(decided + rest =~= round.txs.take(round.txs.len() as int));
        if !(round.stage is Block) {
            let inner = round.current().inner;
            let network = match answer {
                Answer::GasPrice(price) => gas_price_prices(price),
                Answer::Fees(fees) => fee_prices(fees),
                _ => no_prices(),
            };
            law_escalation_changes_only_fees(inner, escalated, network);
            law_bids_never_fall(inner, escalated, network);
            let longer = round.txs.take((round.next + 1) as int);
            assert(longer.drop_last() =~= round.txs.take(round.next as int));
            assert(longer.last() == round.current());
            if after.kept.len() == round.kept.len() + 1 {
                assert(after.kept.drop_last() =~= round.kept);
            }
        }
    }
}

/// A transaction that was included leaves: nothing is kept of it, and the round goes on
/// behind it.
pub proof fn law_included_transactions_leave<M>(
    round: RoundView,
    elapsed: u64,
    now: Instant,
    escalated: PricesView,
)
    requires
        round.wf(),
        round.stage is Receipt,
    ensures
        ({
            let after = round_step(
                round,
                Answer::Receipt(Ok::<bool, M>(true)),
                elapsed,
                now,
                escalated,
            );
            after.kept == round.kept && after.next == round.next + 1
        }),
{
}

/// A transaction whose fees are not raised is not broadcast again: it goes on being watched
/// just as it was.
pub proof fn law_unchanged_is_not_broadcast(round: RoundView)
    requires
        round.wf(),
        !(round.stage is Block),
        !(round.stage is Done),
    ensures
        round.settle(Some(round.current().inner)).kept == round.kept.push(round.current()),
        !(round.settle(Some(round.current().inner)).stage is Broadcast),
{
}

/// A transaction that was broadcast anew is watched with its new fees, its new hash and the
/// time of the broadcast. The rest is as it was, also what it bid at first and when.
pub proof fn law_broadcast_is_watched<M>(
    round: RoundView,
    hash: H256,
    elapsed: u64,
    now: Instant,
    escalated: PricesView,
)
    requires
        round.wf(),
        round.stage is Broadcast,
    ensures
        round_step(
            round,
            Answer::<M>::Sent(Ok(hash)),
            elapsed,
            now,
            escalated,
        ).kept == round.kept.push(
            MonitoredTransactionView {
                hash: Some(hash),
                inner: round.stage->Broadcast_0,
                creation_time: now,
                ..round.current()
            },
        ),
{
}

/// A transaction whose broadcast failed for a reason that may pass is watched on with its old
/// hash and time, so that the next round escalates it again, and with the fees that were
/// tried.
pub proof fn law_retryable_is_kept<M>(
    round: RoundView,
    message: String,
    elapsed: u64,
    now: Instant,
    escalated: PricesView,
)
    requires
        round.wf(),
        round.stage is Broadcast,
        is_retryable(message@),
        !occurs_in(nonce_error(), message@),
    ensures
        round_step(
            round,
            Answer::<M>::Sent(Err(message)),
            elapsed,
            now,
            escalated,
        ).kept == round.kept.push(
            MonitoredTransactionView { inner: round.stage->Broadcast_0, ..round.current() },
        ),
{
}

/// A transaction whose broadcast failed because it was included already, or for an unknown
/// reason, is dropped.
pub proof fn law_other_failures_drop<M>(
    round: RoundView,
    message: String,
    elapsed: u64,
    now: Instant,
    escalated: PricesView,
)
    requires
        round.wf(),
        round.stage is Broadcast,
        !is_retryable(message@) || occurs_in(nonce_error(), message@),
    ensures
        round_step(
            round,
            Answer::<M>::Sent(Err(message)),
            elapsed,
            now,
            escalated,
        ) == round.drop_current(),
{
}

/// Where a receipt cannot be asked for, the round is over and the error is told. What the round
/// has kept so far stays, and behind it each transaction that is not decided yet is kept just
/// as it was.
pub proof fn law_failed_receipt_keeps_the_rest<M>(
    round: RoundView,
    e: M,
    elapsed: u64,
    now: Instant,
    escalated: PricesView,
)
    requires
        round.wf(),
        round.stage is Receipt,
    ensures
        ({
            let answer = Answer::Receipt(Err::<bool, M>(e));
            let after = round_step(round, answer, elapsed, now, escalated);
            &&& round_action(after) is Stop
            &&& after.kept == round.kept + round.txs.skip(round.next as int)
            &&& forall|i: int|
                round.next <= i < round.txs.len() ==> after.kept.contains(#[trigger] round.txs[i])
            &&& round_result(round, answer) == Err::<(), GasEscalatorError<M>>(
                GasEscalatorError::MiddlewareError(e),
            )
        }),
{
    let after = round_step(
        round,
        Answer::Receipt(Err::<bool, M>(e)),
        elapsed,
        now,
        escalated,
    );
    assert forall|i: int| round.next <= i < round.txs.len() implies after.kept.contains(
        #[trigger] round.txs[i],
    ) by {
        assert(after.kept[round.kept.len() + i - round.next] == round.txs[i]);
    }
}

} // verus!
