//! The task that goes over the watched transactions again and again.

use crate::gas_escalator::sending::GasEscalatorError;
use crate::gas_escalator::monitored::{Frequency, MonitoredTransaction};
use futures_util::lock::Mutex;
use std::sync::Arc;
use vstd::prelude::*;

verus! {

/// `futures_util::lock::Mutex`: a lock that tasks wait for. It is carried through.
#[verifier::external_type_specification]
#[verifier::external_body]
#[verifier::reject_recursive_types(Guarded)]
pub struct ExMutex<Guarded: ?Sized>(Mutex<Guarded>);

/// The transactions which are currently being monitored for escalation, shared between those
/// who send transactions and the task.
pub type ToEscalate = Arc<Mutex<Vec<MonitoredTransaction>>>;

/// The task that goes over the watched transactions: whom it talks to, who says what the fees
/// are raised to, how often it does so, and the transactions.
#[derive(Debug)]
pub struct EscalationTask<M, E> {
    pub inner: M,
    pub escalator: E,
    pub frequency: Frequency,
    pub txs: ToEscalate,
}

/// What the task does next.
#[derive(Debug)]
pub enum MonitorAction<M> {
    /// Subscribe to the blocks.
    WatchBlocks,
    /// Set a timer, in milliseconds.
    WatchTimer(u64),
    /// Wait for a block or for the timer.
    Wait,
    /// Go over the watched transactions.
    RunRound,
    /// End.
    Stop(Result<(), GasEscalatorError<M>>),
}

/// What has happened to the task.
#[derive(Debug)]
pub enum MonitorEvent<M> {
    /// The subscription or the timer is there.
    WatcherReady,
    /// There is no subscription to be had.
    WatcherFailed(M),
    /// A block, or the timer.
    Tick,
    /// There will be no more blocks.
    WatcherEnded,
    /// A round is over.
    RoundDone(Result<(), GasEscalatorError<M>>),
}

/// What the task begins with.
pub open spec fn first_action<M>(frequency: Frequency) -> MonitorAction<M> {
    match frequency {
        Frequency::PerBlock => MonitorAction::WatchBlocks,
        Frequency::Duration(ms) => MonitorAction::WatchTimer(ms),
    }
}

/// What the task does after an event. A round that failed does not stop it.
pub open spec fn next_action<M>(event: MonitorEvent<M>) -> MonitorAction<M> {
    match event {
        MonitorEvent::WatcherReady => MonitorAction::Wait,
        MonitorEvent::WatcherFailed(e) => MonitorAction::Stop(
            Err(GasEscalatorError::MiddlewareError(e)),
        ),
        MonitorEvent::Tick => MonitorAction::RunRound,
        MonitorEvent::WatcherEnded => MonitorAction::Stop(Ok(())),
        MonitorEvent::RoundDone(_) => MonitorAction::Wait,
    }
}

impl<M, E> EscalationTask<M, E> {
    /// A task over transactions that are shared with others.
    pub fn new(inner: M, escalator: E, frequency: Frequency, txs: ToEscalate) -> (r:
        EscalationTask<M, E>)
        ensures
            r == (EscalationTask { inner, escalator, frequency, txs }),
    {
        EscalationTask { inner, escalator, frequency, txs }
    }

    /// What the task begins with.
    pub fn start<Er>(&self) -> (r: MonitorAction<Er>)
        ensures
            r == first_action::<Er>(self.frequency),
    {
        match self.frequency {
            Frequency::PerBlock => MonitorAction::WatchBlocks,
            Frequency::Duration(ms) => MonitorAction::WatchTimer(ms),
        }
    }

    /// What the task does after an event.
    pub fn monitor<Er>(event: MonitorEvent<Er>) -> (r: MonitorAction<Er>)
        ensures
            r == next_action(event),
    {
        match event {
            MonitorEvent::WatcherReady => MonitorAction::Wait,
            MonitorEvent::WatcherFailed(e) => MonitorAction::Stop(Err(GasEscalatorError::from(e))),
            MonitorEvent::Tick => MonitorAction::RunRound,
            MonitorEvent::WatcherEnded => MonitorAction::Stop(Ok(())),
            MonitorEvent::RoundDone(_) => MonitorAction::Wait,
        }
    }
}

impl<M> GasEscalatorError<M> {
    /// An error of the inner middleware.
    pub fn from(src: M) -> (r: GasEscalatorError<M>)
        ensures
            r == GasEscalatorError::MiddlewareError(src),
    {
        GasEscalatorError::MiddlewareError(src)
    }
}

/// Takes all watched transactions out of the list, for a round over them.
pub fn take_monitored(txs: &mut Vec<MonitoredTransaction>) -> (r: Vec<MonitoredTransaction>)
    ensures
        r@ == old(txs)@,
        final(txs)@ == Seq::<MonitoredTransaction>::empty(),
{
    let mut taken: Vec<MonitoredTransaction> = Vec::new();
    core::mem::swap(&mut taken, txs);
    taken
}

/// Puts what a round has kept behind what the list holds by now: transactions that were sent
/// while the round went on stay watched.
pub fn put_back(txs: &mut Vec<MonitoredTransaction>, kept: Vec<MonitoredTransaction>)
    ensures
        final(txs)@ == old(txs)@ + kept@,
{
    let mut kept = kept;
    txs.append(&mut kept);
}

/// The task ends only where there is no subscription to be had, or no more block to come: a
/// round that failed never ends it.
pub proof fn law_only_the_watcher_ends_the_task<M>(event: MonitorEvent<M>)
    ensures
        next_action(event) is Stop <==> event is WatcherFailed || event is WatcherEnded,
{
}

/// The task watches the blocks or a timer of the chosen period, waits, goes over the watched
/// transactions at each block or each time the timer is up, and waits again whatever came of it.
/// It ends with the error where there is no subscription to be had, and without one where no more
/// block is to come.
pub proof fn law_task_goes_round<M>(frequency: Frequency, event: MonitorEvent<M>)
    ensures
        frequency is PerBlock ==> first_action::<M>(frequency) is WatchBlocks,
        frequency matches Frequency::Duration(ms) ==> first_action::<M>(frequency)
            == MonitorAction::<M>::WatchTimer(ms),
        event is WatcherReady || event is RoundDone <==> next_action(event) is Wait,
        event is Tick <==> next_action(event) is RunRound,
        event matches MonitorEvent::WatcherFailed(e) ==> next_action(event)
            == MonitorAction::Stop(Err(GasEscalatorError::MiddlewareError(e))),
        event is WatcherEnded ==> next_action(event) == MonitorAction::<M>::Stop(Ok(())),
{
}

} // verus!
