//! What becomes of a transaction once it was sent, or could not be.

use crate::gas_escalator::monitored::{
    bid_prices, clock, may_be_now, prices_of, BlockId, MonitoredTransaction,
    MonitoredTransactionView,
};
use crate::primitives::H256;
use crate::typed_transaction::{TypedTransaction, TypedTransactionView};
use instant::Instant;
use vstd::prelude::*;

verus! {

/// Whether one text occurs somewhere in another.
pub open spec fn occurs_in(needle: Seq<char>, text: Seq<char>) -> bool {
    exists|i: int| #[trigger] occurs_at(needle, text, i)
}

/// Whether one text occurs in another at a position.
pub open spec fn occurs_at(needle: Seq<char>, text: Seq<char>, i: int) -> bool {
    0 <= i <= text.len() - needle.len() && text.subrange(i, i + needle.len()) == needle
}

/// `str::contains` of std with a text to look for: whether it is a part of the string.
#[verifier::external_body]
fn str_contains(text: &str, needle: &str) -> (r: bool)
    ensures
        r == occurs_in(needle@, text@),
{
    text.contains(needle)
}

/// The error that a node answers with when the transaction was included already.
pub open spec fn nonce_error() -> Seq<char> {
    "nonce too low"@
}

/// The errors after which it makes sense to try again.
pub open spec fn retryable_errors() -> Seq<Seq<char>> {
    seq![
        "replacement transaction underpriced"@,
        "already known"@,
        "Fair pubdata price too high"@,
        "insufficient fee"@,
    ]
}

/// Whether a message holds one of the errors after which it makes sense to try again.
pub open spec fn is_retryable(message: Seq<char>) -> bool {
    exists|i: int|
        0 <= i < retryable_errors().len() && occurs_in(#[trigger] retryable_errors()[i], message)
}

/// Whether a message holds one of the errors after which it makes sense to try again.
pub fn retryable(message: &str) -> (r: bool)
    ensures
        r == is_retryable(message@),
{
    let underpriced = str_contains(message, "replacement transaction underpriced");
    let known = str_contains(message, "already known");
    let pubdata = str_contains(message, "Fair pubdata price too high");
    // seen on Sei
    let fee = str_contains(message, "insufficient fee");
    proof {
        let errors = retryable_errors();
        assert(underpriced == occurs_in(errors[0], message@));
        assert(known == occurs_in(errors[1], message@));
        assert(pubdata == occurs_in(errors[2], message@));
        assert(fee == occurs_in(errors[3], message@));
    }
    underpriced || known || pubdata || fee
}

/// Why a broadcast failed, as far as a message tells.
#[derive(Clone, Copy, Debug, PartialEq, Eq, Structural)]
pub enum BroadcastFailure {
    /// May happen if we try to broadcast a new, gas-escalated tx when the one before it already
    /// landed onchain, meaning we no longer need to escalate it.
    NonceTooLow,
    /// One of the known errors after which it makes sense to try again.
    Retryable,
    /// Anything else.
    Unexpected,
}

/// Why a broadcast failed. That the nonce is used up counts more than all else.
pub open spec fn failure_of(message: Seq<char>) -> BroadcastFailure {
    if occurs_in(nonce_error(), message) {
        BroadcastFailure::NonceTooLow
    } else if is_retryable(message) {
        BroadcastFailure::Retryable
    } else {
        BroadcastFailure::Unexpected
    }
}

/// Why a broadcast failed.
pub fn broadcast_failure(message: &str) -> (r: BroadcastFailure)
    ensures
        r == failure_of(message@),
{
    if str_contains(message, "nonce too low") {
        BroadcastFailure::NonceTooLow
    } else if retryable(message) {
        BroadcastFailure::Retryable
    } else {
        BroadcastFailure::Unexpected
    }
}

/// What is watched after a failed broadcast: the transaction as it was, if it makes sense to
/// try again, and nothing if it was included already or if the error is unknown.
pub open spec fn after_broadcast_error(
    message: Seq<char>,
    old_tx: MonitoredTransactionView,
) -> Option<(Option<H256>, Instant)> {
    match failure_of(message) {
        BroadcastFailure::Retryable => Some((old_tx.hash, old_tx.creation_time)),
        _ => None,
    }
}

/// What is watched after a broadcast: the new hash from now on, or what a failure leaves.
pub open spec fn after_broadcast(
    sent: Result<H256, String>,
    now: Instant,
    old_tx: MonitoredTransactionView,
) -> Option<(Option<H256>, Instant)> {
    match sent {
        Ok(hash) => Some((Some(hash), now)),
        Err(message) => after_broadcast_error(message@, old_tx),
    }
}

/// Handles errors from broadcasting a gas-escalated transaction
///
/// **Returns** `None`, if the transaction is to be dropped from the escalator, `Some` to keep
/// monitoring and escalating it
pub fn handle_broadcast_error(
    err_message: String,
    old_monitored_tx: &MonitoredTransaction,
) -> (r: Option<(Option<H256>, Instant)>)
    ensures
        r == after_broadcast_error(err_message@, old_monitored_tx@),
{
    match broadcast_failure(err_message.as_str()) {
        // the old hash and creation time make the transaction be escalated again as soon as
        // the monitored transactions are looked at again
        BroadcastFailure::Retryable => Some(
            (old_monitored_tx.hash, old_monitored_tx.creation_time),
        ),
        BroadcastFailure::NonceTooLow | BroadcastFailure::Unexpected => None,
    }
}

/// What is watched after a broadcast at a known time.
pub fn tx_to_monitor(
    sent: Result<H256, String>,
    now: Instant,
    old_monitored_tx: &MonitoredTransaction,
) -> (r: Option<(Option<H256>, Instant)>)
    ensures
        r == after_broadcast(sent, now, old_monitored_tx@),
{
    match sent {
        Ok(new_tx_hash) => Some((Some(new_tx_hash), now)),
        Err(message) => handle_broadcast_error(message, old_monitored_tx),
    }
}

/// What is watched after a broadcast that has ended now.
///
/// **Returns** a tx hash to monitor and the time it was created, unless the tx was already
/// included or an unknown error occurred
pub fn broadcast_tx(sent: Result<H256, String>, old_monitored_tx: &MonitoredTransaction) -> (r:
    Option<(Option<H256>, Instant)>)
    ensures
        exists|now: Instant|
            may_be_now(now) && r == #[trigger] after_broadcast(sent, now, old_monitored_tx@),
{
    let now = clock();
    tx_to_monitor(sent, now, old_monitored_tx)
}

/// Error thrown when the GasEscalator interacts with the blockchain
#[derive(Debug)]
pub enum GasEscalatorError<M> {
    /// Thrown when an internal middleware errors
    MiddlewareError(M),
}

/// The views of watched transactions.
pub open spec fn monitored_views(txs: Seq<MonitoredTransaction>) -> Seq<MonitoredTransactionView> {
    Seq::new(txs.len(), |i: int| txs[i]@)
}

/// What is watched of a transaction that was sent for the first time: its prices and the time
/// are the initial ones. One that could not be sent is watched too, without a hash and for no
/// block.
pub open spec fn first_watch<M>(
    tx: TypedTransactionView,
    block: Option<BlockId>,
    sent: Result<H256, M>,
    now: Instant,
) -> MonitoredTransactionView {
    match sent {
        Ok(hash) => MonitoredTransactionView {
            hash: Some(hash),
            inner: tx,
            creation_time: now,
            block,
            initial_prices: bid_prices(tx),
            first_broadcast: now,
        },
        Err(_) => MonitoredTransactionView {
            hash: None,
            inner: tx,
            creation_time: now,
            block: None,
            initial_prices: bid_prices(tx),
            first_broadcast: now,
        },
    }
}

/// What the caller is told of a transaction that was sent for the first time.
pub open spec fn reported<M>(sent: Result<H256, M>) -> Result<H256, GasEscalatorError<M>> {
    match sent {
        Ok(hash) => Ok(hash),
        Err(e) => Err(GasEscalatorError::MiddlewareError(e)),
    }
}

/// Puts a transaction that was sent for the first time, at a known time, behind the watched
/// ones, whether sending it succeeded or not.
pub fn watch_sent<M>(
    txs: &mut Vec<MonitoredTransaction>,
    tx: TypedTransaction,
    block: Option<BlockId>,
    sent: Result<H256, M>,
    now: Instant,
) -> (r: Result<H256, GasEscalatorError<M>>)
    ensures
        monitored_views(final(txs)@) == monitored_views(old(txs)@).push(
            first_watch(tx@, block, sent, now),
        ),
        r == reported(sent),
{
    let ghost (before, of_block) = (txs@, block);
    let initial_prices = prices_of(&tx);
    let (hash, block, r) = match sent {
        Ok(hash) => (Some(hash), block, Ok(hash)),
        Err(e) => (None, None, Err(GasEscalatorError::MiddlewareError(e))),
    };
    txs.push(
        MonitoredTransaction {
            hash,
            inner: tx,
            creation_time: now,
            block,
            initial_prices,
            first_broadcast: now,
        },
    );
    assert(monitored_views(txs@) =~= monitored_views(before).push(
        first_watch(tx@, of_block, sent, now),
    ));
    r
}

/// Puts a transaction that was sent for the first time just now behind the watched ones,
/// whether sending it succeeded or not.
pub fn send_transaction<M>(
    txs: &mut Vec<MonitoredTransaction>,
    tx: TypedTransaction,
    block: Option<BlockId>,
    sent: Result<H256, M>,
) -> (r: Result<H256, GasEscalatorError<M>>)
    ensures
        exists|now: Instant|
            may_be_now(now) && monitored_views(final(txs)@) == monitored_views(old(txs)@).push(
                #[trigger] first_watch(tx@, block, sent, now),
            ),
        r == reported(sent),
{
    let now = clock();
    watch_sent(txs, tx, block, sent, now)
}

/// A transaction that is sent for the first time: what it is, for which block, what comes of
/// it, and when.
pub struct FirstSend<M> {
    pub tx: TypedTransactionView,
    pub block: Option<BlockId>,
    pub sent: Result<H256, M>,
    pub now: Instant,
}

impl<M> FirstSend<M> {
    /// What is watched of the transaction.
    pub open spec fn watched(self) -> MonitoredTransactionView {
        first_watch(self.tx, self.block, self.sent, self.now)
    }
}

/// The watched transactions after several were sent one after the other.
pub open spec fn after_sends<M>(
    txs: Seq<MonitoredTransactionView>,
    sends: Seq<FirstSend<M>>,
) -> Seq<MonitoredTransactionView>
    decreases sends.len(),
{
    if sends.len() == 0 {
        txs
    } else {
        after_sends(txs, sends.drop_last()).push(sends.last().watched())
    }
}

/// Where several transactions are sent one after the other, whatever comes of each, the list
/// grows by one entry for each, in the order in which they were sent and behind what it held
/// before. An entry has a hash if and only if the caller was told of success.
pub proof fn law_sends_are_watched_in_order<M>(
    txs: Seq<MonitoredTransactionView>,
    sends: Seq<FirstSend<M>>,
)
    ensures
        after_sends(txs, sends).len() == txs.len() + sends.len(),
        after_sends(txs, sends).take(txs.len() as int) == txs,
        forall|i: int|
            0 <= i < sends.len() ==> {
                let entry = #[trigger] after_sends(txs, sends)[txs.len() + i];
                &&& entry == sends[i].watched()
                &&& entry.inner == sends[i].tx
                &&& entry.hash is Some <==> reported(sends[i].sent) is Ok
            },
    decreases sends.len(),
{
    if sends.len() > 0 {
        let fewer = sends.drop_last();
        law_sends_are_watched_in_order(txs, fewer);
        assert(after_sends(txs, sends).take(txs.len() as int) =~= after_sends(txs, fewer).take(
            txs.len() as int,
        ));
        assert forall|i: int| 0 <= i < sends.len() implies (#[trigger] after_sends(txs, sends)[
            txs.len() + i
        ]) == sends[i].watched() by {
            if i < fewer.len() {
                assert(after_sends(txs, sends)[txs.len() + i] == after_sends(txs, fewer)[
                    txs.len() + i
                ]);
            }
        }
    } else {
        assert(txs.take(txs.len() as int) =~= txs);
    }
}

/// A text that stands between others is found there, and what is found stands there.
pub proof fn law_text_is_found(text: Seq<char>, needle: Seq<char>)
    ensures
        forall|before: Seq<char>, behind: Seq<char>|
            text == #[trigger] (before + needle + behind) ==> occurs_in(needle, text),
        occurs_in(needle, text) ==> exists|before: Seq<char>, behind: Seq<char>|
            text == #[trigger] (before + needle + behind),
{
    assert forall|before: Seq<char>, behind: Seq<char>|
        text == #[trigger] (before + needle + behind) implies occurs_in(needle, text) by {
        let i = before.len() as int;
        assert(text.subrange(i, i + needle.len()) =~= needle);
        assert(occurs_at(needle, text, i));
    }
    if occurs_in(needle, text) {
        let i = choose|i: int| #[trigger] occurs_at(needle, text, i);
        let behind = text.skip(i + needle.len());
        assert(text.take(i) + needle + behind =~= text);
    }
}

/// A message that says that the nonce is too low is of that kind, whatever else it says. Any other
/// is retryable if and only if it holds one of the four known errors.
pub proof fn law_kinds_of_failure(message: Seq<char>)
    ensures
        failure_of(message) is NonceTooLow <==> occurs_in("nonce too low"@, message),
        failure_of(message) is Retryable <==> !occurs_in("nonce too low"@, message) && (
        occurs_in("replacement transaction underpriced"@, message) || occurs_in(
            "already known"@,
            message,
        ) || occurs_in("Fair pubdata price too high"@, message) || occurs_in(
            "insufficient fee"@,
            message,
        )),
        is_retryable(message) <==> occurs_in("replacement transaction underpriced"@, message)
            || occurs_in("already known"@, message) || occurs_in(
            "Fair pubdata price too high"@,
            message,
        ) || occurs_in("insufficient fee"@, message),
{
    let errors = retryable_errors();
    assert(errors[0] == "replacement transaction underpriced"@);
    assert(errors[1] == "already known"@);
    assert(errors[2] == "Fair pubdata price too high"@);
    assert(errors[3] == "insufficient fee"@);
}

/// After a broadcast the new hash is watched from the time of the broadcast on. After a failure
/// that may pass, it is the old hash and time, and after any other nothing.
pub proof fn law_what_is_watched_after_a_broadcast(
    sent: Result<H256, String>,
    now: Instant,
    old_tx: MonitoredTransactionView,
)
    ensures
        sent matches Ok(hash) ==> after_broadcast(sent, now, old_tx) == Some((Some(hash), now)),
        sent matches Err(message) ==> after_broadcast(sent, now, old_tx) == after_broadcast_error(
            message@,
            old_tx,
        ),
        sent matches Err(message) ==> after_broadcast(sent, now, old_tx) == (if failure_of(
            message@,
        ) is Retryable {
            Some((old_tx.hash, old_tx.creation_time))
        } else {
            None
        }),
{
}

/// A transaction that was sent for the first time is watched as it is, from now on, with the fees
/// that it has as its initial prices. Where sending it succeeded, it is watched by its hash and
/// for its block, and the caller gets the hash; else it is watched without both, and the caller
/// gets the error.
pub proof fn law_first_watch<M>(
    tx: TypedTransactionView,
    block: Option<BlockId>,
    sent: Result<H256, M>,
    now: Instant,
)
    ensures
        ({
            let watched = first_watch(tx, block, sent, now);
            &&& watched.inner == tx
            &&& watched.creation_time == now
            &&& watched.first_broadcast == now
            &&& sent matches Ok(hash) ==> {
                &&& watched.hash == Some(hash)
                &&& watched.block == block
                &&& reported(sent) == Ok::<H256, GasEscalatorError<M>>(hash)
            }
            &&& sent matches Err(e) ==> {
                &&& watched.hash is None
                &&& watched.block is None
                &&& reported(sent) == Err::<H256, GasEscalatorError<M>>(
                    GasEscalatorError::MiddlewareError(e),
                )
            }
            &&& tx matches TypedTransactionView::Legacy(t) ==> (t.gas_price matches Some(price)
                ==> watched.initial_prices.fee == price)
            &&& tx matches TypedTransactionView::Eip2930(t) ==> (t.tx.gas_price matches Some(price)
                ==> watched.initial_prices.fee == price)
            &&& tx matches TypedTransactionView::Eip1559(t) ==> (t.max_fee_per_gas is Some
                && t.max_priority_fee_per_gas is Some ==> watched.initial_prices.fee
                == t.max_fee_per_gas->0 && watched.initial_prices.priority
                == t.max_priority_fee_per_gas->0)
        }),
{
}

} // verus!
