//! Transactions that are watched, and what their fees are raised to.

use crate::primitives::{opt_view, H256, U256};
use crate::transaction::{
    Eip1559TransactionRequestView, Eip2930TransactionRequestView, TransactionRequestView,
};
use crate::typed_transaction::{TypedTransaction, TypedTransactionView};
use instant::Instant;
use vstd::prelude::*;

verus! {

/// The base fee that is taken where the latest block tells none: 50 gwei.
pub const DEFAULT_BASE_FEE: u64 = 50_000_000_000;

/// `instant::Instant`: a reading of a clock that only goes forward. It is carried through.
#[verifier::external_type_specification]
#[verifier::external_body]
pub struct ExInstant(Instant);

/// `Instant::elapsed`, in whole seconds. What it gives depends on the clock, so nothing is
/// said of it.
#[verifier::external_body]
fn seconds_since(start: &Instant) -> u64 {
    start.elapsed().as_secs()
}

/// Whether a look at the clock may find that so many whole seconds have passed since `start`.
pub closed spec fn may_have_elapsed(start: Instant, seconds: u64) -> bool {
    call_ensures(seconds_since, (&start,), seconds)
}

/// `Instant::now`. What it gives is the clock's, so nothing is said of it.
#[verifier::external_body]
fn current_time() -> Instant {
    Instant::now()
}

/// Whether a look at the clock may show this time.
pub closed spec fn may_be_now(now: Instant) -> bool {
    call_ensures(current_time, (), now)
}

/// Times are the clock's: what may have elapsed, and what may be now, is what a look at the clock
/// may give, and nothing else.
proof fn law_times_are_the_clocks(start: Instant, seconds: u64, now: Instant)
    ensures
        may_have_elapsed(start, seconds) <==> call_ensures(seconds_since, (&start,), seconds),
        may_be_now(now) <==> call_ensures(current_time, (), now),
{
}

/// The time that the clock shows.
pub fn clock() -> (now: Instant)
    ensures
        may_be_now(now),
{
    current_time()
}

/// Which block a request is about, by a position.
#[derive(Clone, Copy, Debug, PartialEq, Eq)]
pub enum BlockNumber {
    Latest,
    Finalized,
    Safe,
    Earliest,
    Pending,
    Number(u64),
}

/// Which block a request is about.
#[derive(Clone, Copy, Debug, PartialEq, Eq)]
pub enum BlockId {
    Hash(H256),
    Number(BlockNumber),
}

/// Trait for fetching updated gas prices after a transaction has been first
/// broadcast
pub trait GasEscalator: Send + Sync + std::fmt::Debug {
    /// Given the initial gas price and the time elapsed since the transaction's
    /// first broadcast, it returns the new gas price
    fn get_gas_price(&self, initial_price: U256, time_elapsed: u64) -> U256;
}

/// The frequency at which transactions will be bumped
#[derive(Clone, Copy, Debug, PartialEq, Eq, Structural)]
pub enum Frequency {
    /// On a per block basis using the eth_newBlock filter
    PerBlock,
    /// On a duration basis (in milliseconds)
    Duration(u64),
}

/// A transaction that is watched until it is included.
#[derive(Debug, PartialEq, Eq)]
pub struct MonitoredTransaction {
    /// Its hash, unless it could not be sent.
    pub hash: Option<H256>,
    pub inner: TypedTransaction,
    /// When it was last broadcast.
    pub creation_time: Instant,
    pub block: Option<BlockId>,
    /// What it bid when it was first broadcast.
    pub initial_prices: Prices,
    /// When it was first broadcast.
    pub first_broadcast: Instant,
}

/// The model of a [`MonitoredTransaction`].
#[verifier::ext_equal]
pub struct MonitoredTransactionView {
    pub hash: Option<H256>,
    pub inner: TypedTransactionView,
    pub creation_time: Instant,
    pub block: Option<BlockId>,
    pub initial_prices: PricesView,
    pub first_broadcast: Instant,
}

impl View for MonitoredTransaction {
    type V = MonitoredTransactionView;

    open spec fn view(&self) -> MonitoredTransactionView {
        MonitoredTransactionView {
            hash: self.hash,
            inner: self.inner@,
            creation_time: self.creation_time,
            block: self.block,
            initial_prices: self.initial_prices@,
            first_broadcast: self.first_broadcast,
        }
    }
}

impl Clone for MonitoredTransaction {
    fn clone(&self) -> (r: MonitoredTransaction)
        ensures
            r@ == self@,
    {
        MonitoredTransaction {
            hash: self.hash,
            inner: self.inner.clone(),
            creation_time: self.creation_time,
            block: self.block,
            initial_prices: self.initial_prices,
            first_broadcast: self.first_broadcast,
        }
    }
}

/// The larger of two integers.
pub open spec fn larger(a: nat, b: nat) -> nat {
    if a <= b {
        b
    } else {
        a
    }
}

/// What a transaction bids: its gas price, or its fee cap and then its priority fee. One whose
/// prices are not set, or that is never escalated, has no bids.
pub open spec fn bids(tx: TypedTransactionView) -> Seq<nat> {
    match tx {
        TypedTransactionView::Legacy(t) => match t.gas_price {
            Some(price) => seq![price],
            None => Seq::empty(),
        },
        TypedTransactionView::Eip2930(t) => match t.tx.gas_price {
            Some(price) => seq![price],
            None => Seq::empty(),
        },
        TypedTransactionView::Eip1559(t) => match (t.max_fee_per_gas, t.max_priority_fee_per_gas) {
            (Some(fee), Some(priority)) => seq![fee, priority],
            _ => Seq::empty(),
        },
        TypedTransactionView::Midl(_) => Seq::empty(),
    }
}

/// A transaction with the prices of an escalator, or with those of the network where they
/// are higher; what it bids by now is the least that it goes on to bid. A transaction with an
/// access list and a gas price takes no heed of the network. There is none where there is
/// nothing to escalate.
pub open spec fn with_prices(
    tx: TypedTransactionView,
    escalated: PricesView,
    network: PricesView,
) -> Option<TypedTransactionView> {
    if bids(tx).len() == 0 {
        None
    } else {
        let now = bid_prices(tx);
        let fee = larger(larger(escalated.fee, network.fee), now.fee);
        let priority = larger(larger(escalated.priority, network.priority), now.priority);
        match tx {
            TypedTransactionView::Legacy(t) => Some(
                TypedTransactionView::Legacy(
                    TransactionRequestView { gas_price: Some(fee), ..t },
                ),
            ),
            TypedTransactionView::Eip2930(t) => Some(
                TypedTransactionView::Eip2930(
                    Eip2930TransactionRequestView {
                        tx: TransactionRequestView {
                            gas_price: Some(larger(escalated.fee, now.fee)),
                            ..t.tx
                        },
                        ..t
                    },
                ),
            ),
            TypedTransactionView::Eip1559(t) => Some(
                TypedTransactionView::Eip1559(
                    Eip1559TransactionRequestView {
                        max_fee_per_gas: Some(fee),
                        max_priority_fee_per_gas: Some(priority),
                        ..t
                    },
                ),
            ),
            TypedTransactionView::Midl(t) => None,
        }
    }
}

/// A gas price or a fee cap, and a priority fee where there is one.
#[derive(Clone, Copy, Debug, PartialEq, Eq)]
pub struct Prices {
    pub fee: U256,
    pub priority: U256,
}

/// The model of [`Prices`].
pub struct PricesView {
    pub fee: nat,
    pub priority: nat,
}

impl View for Prices {
    type V = PricesView;

    open spec fn view(&self) -> PricesView {
        PricesView { fee: self.fee@, priority: self.priority@ }
    }
}

/// No price at all.
pub open spec fn no_prices() -> PricesView {
    PricesView { fee: 0, priority: 0 }
}

impl Prices {
    /// No price at all.
    pub fn zero() -> (r: Prices)
        ensures
            r@ == no_prices(),
    {
        Prices { fee: U256::zero(), priority: U256::zero() }
    }
}

/// What a transaction bids, as prices; 0 where it does not.
pub open spec fn bid_prices(tx: TypedTransactionView) -> PricesView {
    PricesView {
        fee: if bids(tx).len() >= 1 {
            bids(tx)[0]
        } else {
            0
        },
        priority: if bids(tx).len() >= 2 {
            bids(tx)[1]
        } else {
            0
        },
    }
}

/// What a transaction bids, as prices; 0 where it does not.
pub fn prices_of(tx: &TypedTransaction) -> (r: Prices)
    ensures
        r@ == bid_prices(tx@),
{
    let mut prices = Prices::zero();
    match tx {
        TypedTransaction::Legacy(tx) => {
            if let Some(price) = tx.gas_price {
                prices.fee = price;
            }
        },
        TypedTransaction::Eip2930(tx) => {
            if let Some(price) = tx.tx.gas_price {
                prices.fee = price;
            }
        },
        TypedTransaction::Eip1559(tx) => {
            if let (Some(fee), Some(priority)) = (tx.max_fee_per_gas, tx.max_priority_fee_per_gas) {
                prices.fee = fee;
                prices.priority = priority;
            }
        },
        TypedTransaction::Midl(_) => {},
    }
    prices
}

/// Whether an escalator may have given these prices for a transaction with these initial
/// prices: it is asked once for each bid, about what was bid at first.
pub open spec fn escalated_by<E: GasEscalator>(
    escalator: E,
    tx: TypedTransactionView,
    initial: PricesView,
    time_elapsed: u64,
    prices: Prices,
) -> bool {
    &&& bids(tx).len() >= 1 ==> priced_by(escalator, initial.fee, time_elapsed, prices.fee)
    &&& bids(tx).len() >= 2 ==> priced_by(
        escalator,
        initial.priority,
        time_elapsed,
        prices.priority,
    )
}

/// Whether an escalator may have given this price for a price that is `initial`.
pub open spec fn priced_by<E: GasEscalator>(
    escalator: E,
    initial: nat,
    time_elapsed: u64,
    price: U256,
) -> bool {
    exists|i: U256|
        i@ == initial && #[trigger] call_ensures(
            E::get_gas_price,
            (&escalator, i, time_elapsed),
            price,
        )
}

/// What the network must be asked before a transaction can be escalated.
#[derive(Clone, Copy, Debug, PartialEq, Eq, Structural)]
pub enum Question {
    /// Nothing: there is nothing to escalate.
    NotEscalated,
    /// Nothing: the escalator alone decides.
    Nothing,
    /// The gas price.
    GasPrice,
    /// The fee cap and the priority fee.
    Fees,
}

/// What the network must be asked before a transaction can be escalated.
pub open spec fn question_of(tx: TypedTransactionView) -> Question {
    if bids(tx).len() == 0 {
        Question::NotEscalated
    } else {
        match tx {
            TypedTransactionView::Legacy(_) => Question::GasPrice,
            TypedTransactionView::Eip1559(_) => Question::Fees,
            _ => Question::Nothing,
        }
    }
}

impl MonitoredTransaction {
    /// The whole seconds since the transaction was first broadcast, by the clock. How many
    /// they are is the clock's.
    pub fn time_elapsed(&self) -> (r: u64)
        ensures
            may_have_elapsed(self@.first_broadcast, r),
    {
        seconds_since(&self.first_broadcast)
    }

    /// What the network must be asked before the transaction can be escalated.
    pub fn question(&self) -> (r: Question)
        ensures
            r == question_of(self@.inner),
    {
        match &self.inner {
            TypedTransaction::Legacy(tx) => if tx.gas_price.is_some() {
                Question::GasPrice
            } else {
                Question::NotEscalated
            },
            TypedTransaction::Eip2930(tx) => if tx.tx.gas_price.is_some() {
                Question::Nothing
            } else {
                Question::NotEscalated
            },
            TypedTransaction::Eip1559(tx) => if tx.max_fee_per_gas.is_some()
                && tx.max_priority_fee_per_gas.is_some() {
                Question::Fees
            } else {
                Question::NotEscalated
            },
            TypedTransaction::Midl(_) => Question::NotEscalated,
        }
    }

    /// The prices that an escalator gives for the transaction, zero where there is none. It is
    /// asked about the prices of the first broadcast.
    pub fn escalated_prices<E: GasEscalator>(&self, escalator: &E, time_elapsed: u64) -> (r: Prices)
        ensures
            escalated_by(*escalator, self@.inner, self@.initial_prices, time_elapsed, r),
            bids(self@.inner).len() < 2 ==> r.priority@ == 0,
            bids(self@.inner).len() < 1 ==> r.fee@ == 0,
    {
        let mut prices = Prices::zero();
        match self.question() {
            Question::NotEscalated => {},
            Question::Nothing | Question::GasPrice => {
                prices.fee = escalator.get_gas_price(self.initial_prices.fee, time_elapsed);
            },
            Question::Fees => {
                let initial = self.initial_prices;
                prices.fee = escalator.get_gas_price(initial.fee, time_elapsed);
                prices.priority = escalator.get_gas_price(initial.priority, time_elapsed);
            },
        }
        prices
    }

    /// The transaction with the prices of an escalator, or with those of the network where
    /// they are higher. No bid is lowered.
    pub fn with_escalated_prices(&self, escalated: Prices, network: Prices) -> (r: Option<
        TypedTransaction,
    >)
        ensures
            opt_view(r) == with_prices(self@.inner, escalated@, network@),
    {
        if self.question() == Question::NotEscalated {
            return None;
        }
        let now = prices_of(&self.inner);
        let fee = escalated.fee.max(network.fee).max(now.fee);
        let priority = escalated.priority.max(network.priority).max(now.priority);
        let mut updated = self.inner.clone();
        match &mut updated {
            TypedTransaction::Legacy(tx) => {
                tx.gas_price = Some(fee);
            },
            TypedTransaction::Eip2930(tx) => {
                tx.tx.gas_price = Some(escalated.fee.max(now.fee));
            },
            TypedTransaction::Eip1559(tx) => {
                tx.max_fee_per_gas = Some(fee);
                tx.max_priority_fee_per_gas = Some(priority);
            },
            TypedTransaction::Midl(_) => {},
        }
        Some(updated)
    }

    /// The transaction with its fees raised as the escalator has it after that time, and to
    /// what the network asks for at least. No fee is lowered. There is none where a price is
    /// not set, and none for a Midl transaction.
    pub fn escalate_gas_price<E: GasEscalator>(
        &self,
        escalator: &E,
        time_elapsed: u64,
        network: Prices,
    ) -> (r: Option<TypedTransaction>)
        ensures
            exists|escalated: Prices| #[trigger]
                escalated_by(
                    *escalator,
                    self@.inner,
                    self@.initial_prices,
                    time_elapsed,
                    escalated,
                ) && opt_view(r) == with_prices(self@.inner, escalated@, network@),
            r matches Some(new_tx) ==> bids_no_less(new_tx@, self@.inner),
    {
        let escalated = self.escalated_prices(escalator, time_elapsed);
        proof {
            law_bids_never_fall(self@.inner, escalated@, network@);
        }
        self.with_escalated_prices(escalated, network)
    }
}

/// The base fee of the latest block, or the default one where there is no block or no fee in
/// it.
pub fn base_fee_or_default(latest: Option<U256>) -> (r: U256)
    ensures
        r@ == (match latest {
            Some(fee) => fee@,
            None => DEFAULT_BASE_FEE as nat,
        }),
{
    match latest {
        Some(fee) => fee,
        None => U256::from(DEFAULT_BASE_FEE),
    }
}

/// A transaction without what it bids: its prices are taken out, the rest is as it was.
pub open spec fn without_fees(tx: TypedTransactionView) -> TypedTransactionView {
    match tx {
        TypedTransactionView::Legacy(t) => TypedTransactionView::Legacy(
            TransactionRequestView { gas_price: None, ..t },
        ),
        TypedTransactionView::Eip2930(t) => TypedTransactionView::Eip2930(
            Eip2930TransactionRequestView {
                tx: TransactionRequestView { gas_price: None, ..t.tx },
                ..t
            },
        ),
        TypedTransactionView::Eip1559(t) => TypedTransactionView::Eip1559(
            Eip1559TransactionRequestView {
                max_fee_per_gas: None,
                max_priority_fee_per_gas: None,
                ..t
            },
        ),
        TypedTransactionView::Midl(t) => tx,
    }
}

/// Escalating raises what a transaction bids and touches nothing else: it is the same
/// transaction (nonce, recipient, value, data and so on) that is sent again.
pub proof fn law_escalation_changes_only_fees(
    tx: TypedTransactionView,
    escalated: PricesView,
    network: PricesView,
)
    ensures
        with_prices(tx, escalated, network) matches Some(new_tx) ==> without_fees(new_tx)
            == without_fees(tx),
{
}

/// A transaction that takes heed of the network bids no less than the network asks for, and
/// none bids less than the escalator says.
pub proof fn law_bids_reach_both_prices(
    tx: TypedTransactionView,
    escalated: PricesView,
    network: PricesView,
)
    ensures
        with_prices(tx, escalated, network) matches Some(new_tx) ==> {
            &&& bids(new_tx).len() == bids(tx).len()
            &&& bids(new_tx)[0] >= escalated.fee
            &&& !(tx is Eip2930) ==> bids(new_tx)[0] >= network.fee
            &&& tx is Eip1559 ==> bids(new_tx)[1] >= escalated.priority && bids(new_tx)[1]
                >= network.priority
        },
{
}

/// Whether one transaction bids in nothing less than another.
pub open spec fn bids_no_less(new_tx: TypedTransactionView, tx: TypedTransactionView) -> bool {
    &&& bids(new_tx).len() == bids(tx).len()
    &&& forall|i: int| 0 <= i < bids(tx).len() ==> bids(new_tx)[i] >= bids(tx)[i]
}

/// Whether one transaction bids in something more than another, and in nothing less.
pub open spec fn outbids(new_tx: TypedTransactionView, tx: TypedTransactionView) -> bool {
    &&& bids_no_less(new_tx, tx)
    &&& exists|i: int| 0 <= i < bids(tx).len() && #[trigger] bids(new_tx)[i] > bids(tx)[i]
}

/// No bid ever falls, whatever the escalator and the network say: a transaction stays as it is,
/// or a bid of it rises.
pub proof fn law_bids_never_fall(
    tx: TypedTransactionView,
    escalated: PricesView,
    network: PricesView,
)
    ensures
        with_prices(tx, escalated, network) matches Some(new_tx) ==> {
            &&& bids_no_less(new_tx, tx)
            &&& new_tx == tx || outbids(new_tx, tx)
        },
{
    if let Some(new_tx) = with_prices(tx, escalated, network) {
        if new_tx != tx {
            if bids(new_tx)[0] > bids(tx)[0] {
                assert(outbids(new_tx, tx));
            } else {
                assert(bids(new_tx)[1] > bids(tx)[1]);
            }
        }
    }
}

/// Whether a fee cap covers its priority fee.
pub open spec fn is_fee_pair(prices: PricesView) -> bool {
    prices.priority <= prices.fee
}

/// Whether an escalator gives no more for a lower price than for a higher one.
pub open spec fn keeps_order<E: GasEscalator>(escalator: E, time_elapsed: u64) -> bool {
    forall|p: U256, q: U256, x: U256, y: U256|
        #![trigger call_ensures(E::get_gas_price, (&escalator, p, time_elapsed), x),
            call_ensures(E::get_gas_price, (&escalator, q, time_elapsed), y)]
        p@ <= q@ && call_ensures(E::get_gas_price, (&escalator, p, time_elapsed), x)
            && call_ensures(E::get_gas_price, (&escalator, q, time_elapsed), y) ==> x@ <= y@
}

/// A fee cap goes on to cover its priority fee, where it did so at first, where it does by now
/// and in what the network asks for, and where the escalator keeps the order of prices.
pub proof fn law_fee_pair_stays_valid<E: GasEscalator>(
    escalator: E,
    tx: MonitoredTransactionView,
    time_elapsed: u64,
    escalated: Prices,
    network: PricesView,
)
    requires
        keeps_order(escalator, time_elapsed),
        escalated_by(escalator, tx.inner, tx.initial_prices, time_elapsed, escalated),
        is_fee_pair(tx.initial_prices),
        is_fee_pair(bid_prices(tx.inner)),
        is_fee_pair(network),
        tx.inner is Eip1559,
    ensures
        with_prices(tx.inner, escalated@, network) matches Some(new_tx) ==> is_fee_pair(
            bid_prices(new_tx),
        ),
{
}

/// A transaction is escalated if and only if its prices are set; a Midl transaction never is.
pub proof fn law_escalated_iff_priced(
    tx: TypedTransactionView,
    escalated: PricesView,
    network: PricesView,
)
    ensures
        with_prices(tx, escalated, network) is Some <==> bids(tx).len() > 0,
        tx is Midl ==> with_prices(tx, escalated, network) is None,
{
}

} // verus!
