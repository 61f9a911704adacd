//! Escalation of stuck transactions.

use instant::Instant;
use midl_escalator::gas_escalator::monitored::{
    base_fee_or_default, clock, prices_of, BlockId, BlockNumber, Frequency, GasEscalator,
    MonitoredTransaction, Prices, Question,
};
use midl_escalator::gas_escalator::round::{Action, Answer, EscalationRound};
use midl_escalator::gas_escalator::sending::{
    broadcast_failure, broadcast_tx, handle_broadcast_error, retryable, send_transaction,
    tx_to_monitor, watch_sent, BroadcastFailure, GasEscalatorError,
};
use midl_escalator::gas_escalator::task::{
    put_back, take_monitored, EscalationTask, MonitorAction, MonitorEvent, ToEscalate,
};
use midl_escalator::midl::MidlTransactionRequest;
use midl_escalator::primitives::{H256, U256};
use midl_escalator::transaction::{
    AccessList, Eip1559TransactionRequest, Eip2930TransactionRequest, TransactionRequest,
};
use midl_escalator::typed_transaction::TypedTransaction;
use std::time::Duration;

#[derive(Debug)]
struct AddTime;

impl GasEscalator for AddTime {
    fn get_gas_price(&self, initial_price: U256, time_elapsed: u64) -> U256 {
        U256::from(initial_price.0[0] + time_elapsed)
    }
}

#[derive(Debug)]
struct Double;

impl GasEscalator for Double {
    fn get_gas_price(&self, initial_price: U256, _time_elapsed: u64) -> U256 {
        U256::from(2 * initial_price.0[0])
    }
}

fn num(n: u64) -> U256 {
    U256::from(n)
}

fn prices(fee: u64, priority: u64) -> Prices {
    Prices { fee: num(fee), priority: num(priority) }
}

fn legacy(price: Option<u64>) -> TypedTransaction {
    TypedTransaction::Legacy(TransactionRequest {
        nonce: Some(num(1)),
        gas_price: price.map(num),
        ..Default::default()
    })
}

fn eip2930(price: Option<u64>) -> TypedTransaction {
    TypedTransaction::Eip2930(Eip2930TransactionRequest {
        tx: TransactionRequest { gas_price: price.map(num), ..Default::default() },
        access_list: AccessList(vec![]),
    })
}

fn eip1559(fee: Option<u64>, priority: Option<u64>) -> TypedTransaction {
    TypedTransaction::Eip1559(Eip1559TransactionRequest {
        from: None,
        to: None,
        gas: None,
        value: None,
        data: None,
        nonce: Some(num(3)),
        access_list: AccessList(vec![]),
        max_priority_fee_per_gas: priority.map(num),
        max_fee_per_gas: fee.map(num),
        chain_id: None,
    })
}

fn midl() -> TypedTransaction {
    TypedTransaction::Midl(MidlTransactionRequest::new(TransactionRequest {
        gas_price: Some(num(5)),
        ..Default::default()
    }))
}

/// A transaction that was broadcast once.
fn watched(hash: Option<u8>, inner: TypedTransaction, time: Instant) -> MonitoredTransaction {
    MonitoredTransaction {
        hash: hash.map(H256::repeat_byte),
        initial_prices: prices_of(&inner),
        inner,
        creation_time: time,
        block: Some(BlockId::Number(BlockNumber::Latest)),
        first_broadcast: time,
    }
}

fn escalated(tx: TypedTransaction, time: u64, network: Prices) -> Option<TypedTransaction> {
    watched(None, tx, Instant::now()).escalate_gas_price(&AddTime, time, network)
}

#[test]
fn legacy_takes_the_higher_of_escalator_and_network() {
    assert_eq!(escalated(legacy(Some(100)), 7, prices(50, 0)), Some(legacy(Some(107))));
    assert_eq!(escalated(legacy(Some(100)), 7, prices(500, 0)), Some(legacy(Some(500))));
    assert_eq!(escalated(legacy(None), 7, prices(500, 0)), None);
}

#[test]
fn access_list_transaction_ignores_the_network() {
    assert_eq!(escalated(eip2930(Some(100)), 7, prices(500, 0)), Some(eip2930(Some(107))));
    assert_eq!(escalated(eip2930(None), 7, prices(500, 0)), None);
}

#[test]
fn fee_market_transaction_raises_both_fees() {
    assert_eq!(
        escalated(eip1559(Some(100), Some(10)), 7, prices(500, 3)),
        Some(eip1559(Some(500), Some(17)))
    );
    assert_eq!(
        escalated(eip1559(Some(100), Some(10)), 7, prices(50, 30)),
        Some(eip1559(Some(107), Some(30)))
    );
    assert_eq!(escalated(eip1559(None, Some(10)), 7, prices(50, 30)), None);
    assert_eq!(escalated(eip1559(Some(100), None), 7, prices(50, 30)), None);
}

#[test]
fn midl_is_never_escalated() {
    assert_eq!(escalated(midl(), 7, prices(500, 500)), None);
    assert_eq!(watched(None, midl(), Instant::now()).question(), Question::NotEscalated);
}

#[test]
fn bids_as_prices() {
    assert_eq!(prices_of(&legacy(Some(4))), prices(4, 0));
    assert_eq!(prices_of(&eip2930(Some(5))), prices(5, 0));
    assert_eq!(prices_of(&eip1559(Some(6), Some(7))), prices(6, 7));
    assert_eq!(prices_of(&eip1559(Some(6), None)), prices(0, 0));
    assert_eq!(prices_of(&legacy(None)), prices(0, 0));
    assert_eq!(prices_of(&midl()), prices(0, 0));
}

#[test]
fn escalator_is_asked_about_the_first_prices() {
    let mut tx = watched(None, eip1559(Some(104), Some(11)), Instant::now());
    tx.initial_prices = prices(100, 10);
    assert_eq!(tx.escalated_prices(&AddTime, 7), prices(107, 17));
    assert_eq!(
        tx.escalate_gas_price(&AddTime, 7, prices(50, 30)),
        Some(eip1559(Some(107), Some(30)))
    );
    let mut tx = watched(None, legacy(Some(104)), Instant::now());
    tx.initial_prices = prices(100, 0);
    assert_eq!(tx.escalate_gas_price(&AddTime, 7, prices(0, 0)), Some(legacy(Some(107))));
}

#[test]
fn bids_never_fall() {
    let now = Instant::now();
    for inner in [eip1559(Some(900), Some(90)), legacy(Some(900)), eip2930(Some(900))] {
        let mut tx = watched(None, inner.clone(), now);
        tx.initial_prices = prices(100, 10);
        assert_eq!(tx.escalate_gas_price(&AddTime, 7, prices(50, 30)), Some(inner));
    }
    // one fee rises, the other stays
    let mut tx = watched(None, eip1559(Some(100), Some(50)), now);
    tx.initial_prices = prices(10, 50);
    assert_eq!(
        tx.escalate_gas_price(&AddTime, 10, prices(0, 0)),
        Some(eip1559(Some(100), Some(60)))
    );
}

#[test]
fn fee_cap_goes_on_to_cover_the_priority_fee() {
    let mut tx = watched(None, eip1559(Some(100), Some(50)), Instant::now());
    tx.initial_prices = prices(60, 50);
    assert_eq!(
        tx.escalate_gas_price(&AddTime, 45, prices(80, 70)),
        Some(eip1559(Some(105), Some(95)))
    );
    assert_eq!(
        tx.escalate_gas_price(&AddTime, 5, prices(99, 99)),
        Some(eip1559(Some(100), Some(99)))
    );
}

#[test]
fn bids_rise_with_the_time_and_the_network() {
    let mut tx = watched(None, eip1559(Some(100), Some(10)), Instant::now());
    tx.inner = tx.escalate_gas_price(&AddTime, 5, prices(120, 12)).unwrap();
    assert_eq!(tx.inner, eip1559(Some(120), Some(15)));
    tx.inner = tx.escalate_gas_price(&AddTime, 30, prices(120, 12)).unwrap();
    assert_eq!(tx.inner, eip1559(Some(130), Some(40)));
}

#[test]
fn questions_to_the_network() {
    let now = Instant::now();
    assert_eq!(watched(None, legacy(Some(1)), now).question(), Question::GasPrice);
    assert_eq!(watched(None, legacy(None), now).question(), Question::NotEscalated);
    assert_eq!(watched(None, eip2930(Some(1)), now).question(), Question::Nothing);
    assert_eq!(watched(None, eip1559(Some(1), Some(1)), now).question(), Question::Fees);
}

#[test]
fn elapsed_time_is_in_seconds() {
    let start = Instant::now();
    if let Some(earlier) = start.checked_sub(Duration::from_secs(3)) {
        let elapsed = watched(None, midl(), earlier).time_elapsed();
        assert!(elapsed >= 3 && elapsed < 60);
    }
    assert!(watched(None, midl(), start).time_elapsed() < 60);
}

#[test]
fn time_is_measured_from_the_first_broadcast() {
    let now = clock();
    if let Some(earlier) = now.checked_sub(Duration::from_secs(100)) {
        let answers = || -> Vec<Step> {
            vec![Answer::Block(None), Answer::Receipt(Ok(false)), Answer::Time]
        };
        let mut tx = watched(Some(1), eip2930(Some(60)), earlier);
        tx.creation_time = now;
        tx.initial_prices = prices(10, 0);
        assert!(tx.time_elapsed() >= 100 && tx.time_elapsed() < 160);
        let mut round = EscalationRound::new(vec![tx.clone()]);
        for answer in answers() {
            assert!(round.advance(&AddTime, answer).is_ok());
        }
        match round.action() {
            Action::Broadcast(TypedTransaction::Eip2930(tx), _) => {
                let price = tx.tx.gas_price.unwrap().0[0];
                assert!(price >= 110 && price < 170);
            }
            other => panic!("{:?}", other),
        }
        // a bid that is higher already stays, and nothing is broadcast
        tx.inner = eip2930(Some(900));
        let mut round = EscalationRound::new(vec![tx.clone()]);
        for answer in answers() {
            assert!(round.advance(&AddTime, answer).is_ok());
        }
        assert!(matches!(round.action(), Action::Stop));
        assert_eq!(round.finish(), vec![tx]);
    }
}

#[test]
fn price_of_the_network_is_not_given_up_again() {
    let now = Instant::now();
    let mut txs = vec![];
    let sent: Result<H256, String> = Ok(H256::repeat_byte(1));
    assert!(watch_sent(&mut txs, legacy(Some(100)), None, sent, now).is_ok());
    let mut run = |txs: Vec<MonitoredTransaction>, network: Option<U256>| {
        let mut round = EscalationRound::new(txs);
        let answers: Vec<Step> = vec![
            Answer::Block(None),
            Answer::Receipt(Ok(false)),
            Answer::Time,
            Answer::GasPrice(network),
            Answer::Sent(Ok(H256::repeat_byte(2))),
        ];
        for answer in answers {
            assert!(round.advance_with(answer, 10, now, prices(110, 0)).is_ok());
        }
        round.finish()
    };
    let first = run(txs, Some(num(500)));
    assert_eq!(first[0].inner, legacy(Some(500)));
    assert_eq!(first[0].hash, Some(H256::repeat_byte(2)));
    assert_eq!(run(first.clone(), None), first);
}

#[test]
fn base_fee_defaults_to_fifty_gwei() {
    assert_eq!(base_fee_or_default(None), num(50_000_000_000));
    assert_eq!(base_fee_or_default(Some(num(7))), num(7));
}

#[test]
fn retryable_messages() {
    assert!(retryable("replacement transaction underpriced"));
    assert!(retryable("(code: -32000, message: already known, data: None)"));
    assert!(retryable("Fair pubdata price too high"));
    assert!(retryable("insufficient fee"));
    assert!(!retryable("insufficient funds"));
    assert!(!retryable("nonce too low"));
    assert!(!retryable(""));
}

#[test]
fn broadcast_errors() {
    let tx = watched(Some(1), legacy(Some(1)), Instant::now());
    let kept = Some((tx.hash, tx.creation_time));
    assert_eq!(handle_broadcast_error(String::from("already known"), &tx), kept);
    assert_eq!(handle_broadcast_error(String::from("nonce too low"), &tx), None);
    assert_eq!(handle_broadcast_error(String::from("nonce too low, already known"), &tx), None);
    assert_eq!(handle_broadcast_error(String::from("out of gas"), &tx), None);
}

#[test]
fn failures_of_a_broadcast() {
    assert_eq!(broadcast_failure("nonce too low"), BroadcastFailure::NonceTooLow);
    assert_eq!(broadcast_failure("nonce too low, already known"), BroadcastFailure::NonceTooLow);
    assert_eq!(broadcast_failure("insufficient fee"), BroadcastFailure::Retryable);
    assert_eq!(broadcast_failure("out of gas"), BroadcastFailure::Unexpected);
}

#[test]
fn broadcast_outcomes() {
    let tx = watched(Some(1), legacy(Some(1)), Instant::now());
    let later = tx.creation_time + Duration::from_secs(9);
    let hash = H256::repeat_byte(2);
    assert_eq!(tx_to_monitor(Ok(hash), later, &tx), Some((Some(hash), later)));
    assert_eq!(
        tx_to_monitor(Err(String::from("insufficient fee")), later, &tx),
        Some((tx.hash, tx.creation_time))
    );
    let (new_hash, time) = broadcast_tx(Ok(hash), &tx).unwrap();
    assert_eq!(new_hash, Some(hash));
    assert!(time >= tx.creation_time && time <= Instant::now());
    assert_eq!(broadcast_tx(Err(String::from("boom")), &tx), None);
}

#[test]
fn sent_transactions_are_watched() {
    let before = Instant::now();
    let mut txs = vec![];
    let block = Some(BlockId::Hash(H256::repeat_byte(8)));
    let hash = H256::repeat_byte(1);
    let sent: Result<H256, &str> = Ok(hash);
    assert!(matches!(send_transaction(&mut txs, legacy(Some(1)), block, sent), Ok(h) if h == hash));
    assert_eq!(txs.len(), 1);
    assert_eq!(txs[0].hash, Some(hash));
    assert_eq!(txs[0].inner, legacy(Some(1)));
    assert_eq!(txs[0].block, block);
    assert!(txs[0].creation_time >= before && txs[0].creation_time <= Instant::now());
    assert_eq!(txs[0].first_broadcast, txs[0].creation_time);
    assert_eq!(txs[0].initial_prices, prices(1, 0));
}

#[test]
fn several_sends_are_watched_in_order() {
    let now = Instant::now();
    let mut txs = vec![watched(Some(9), midl(), now)];
    let outcomes: Vec<Result<H256, &str>> =
        vec![Ok(H256::repeat_byte(1)), Err("offline"), Ok(H256::repeat_byte(3))];
    for (i, sent) in outcomes.into_iter().enumerate() {
        let told = watch_sent(&mut txs, legacy(Some(i as u64)), None, sent, now);
        assert_eq!(told.is_ok(), txs[i + 1].hash.is_some());
    }
    assert_eq!(txs.len(), 4);
    assert_eq!(txs[0], watched(Some(9), midl(), now));
    assert_eq!(txs[1].hash, Some(H256::repeat_byte(1)));
    assert_eq!(txs[2].hash, None);
    assert_eq!(txs[3].hash, Some(H256::repeat_byte(3)));
    for i in 0..3 {
        assert_eq!(txs[i + 1].inner, legacy(Some(i as u64)));
    }
}

#[test]
fn unsent_transactions_are_watched_too() {
    let now = Instant::now();
    let mut txs = vec![watched(Some(1), midl(), now)];
    let block = Some(BlockId::Number(BlockNumber::Number(4)));
    let sent: Result<H256, &str> = Err("offline");
    assert!(matches!(
        watch_sent(&mut txs, legacy(Some(1)), block, sent, now),
        Err(GasEscalatorError::MiddlewareError("offline"))
    ));
    assert_eq!(txs.len(), 2);
    assert_eq!(
        txs[1],
        MonitoredTransaction {
            hash: None,
            inner: legacy(Some(1)),
            creation_time: now,
            block: None,
            initial_prices: prices(1, 0),
            first_broadcast: now,
        }
    );
}

type Step = Answer<String>;

#[test]
fn round_over_nothing_asks_for_the_block_only() {
    let mut round = EscalationRound::new(vec![]);
    assert!(matches!(round.action(), Action::FetchBlock));
    let answer: Step = Answer::Block(None);
    assert!(round.advance(&Double, answer).is_ok());
    assert!(matches!(round.action(), Action::Stop));
    assert!(round.finish().is_empty());
}

#[test]
fn round_escalates_what_is_stuck() {
    let now = Instant::now();
    let mut round = EscalationRound::new(vec![
        watched(Some(1), legacy(Some(10)), now),
        watched(Some(2), legacy(Some(20)), now),
        watched(None, eip2930(Some(30)), now),
        watched(None, eip1559(Some(40), Some(4)), now),
        watched(None, midl(), now),
    ]);
    let mut step = |round: &mut EscalationRound, answer: Step| {
        assert!(round.advance(&Double, answer).is_ok());
        round.action()
    };
    assert!(matches!(step(&mut round, Answer::Block(None)), Action::FetchReceipt(h) if h == H256::repeat_byte(1)));
    // the first was included
    assert!(matches!(step(&mut round, Answer::Receipt(Ok(true))), Action::FetchReceipt(h) if h == H256::repeat_byte(2)));
    // the second was not
    assert!(matches!(step(&mut round, Answer::Receipt(Ok(false))), Action::MeasureTime));
    assert!(matches!(step(&mut round, Answer::Time), Action::FetchGasPrice));
    match step(&mut round, Answer::GasPrice(Some(num(35)))) {
        Action::Broadcast(tx, block) => {
            assert_eq!(tx, legacy(Some(40)));
            assert_eq!(block, Some(BlockId::Number(BlockNumber::Latest)));
        }
        other => panic!("{:?}", other),
    }
    assert!(matches!(step(&mut round, Answer::Sent(Ok(H256::repeat_byte(22)))), Action::MeasureTime));
    // the third needs no word of the network
    assert!(matches!(step(&mut round, Answer::Time), Action::Broadcast(tx, _) if tx == eip2930(Some(60))));
    assert!(matches!(
        step(&mut round, Answer::Sent(Err(String::from("already known")))),
        Action::MeasureTime
    ));
    // the fourth is estimated for the default base fee
    assert!(matches!(step(&mut round, Answer::Time), Action::FetchFees(fee) if fee == num(50_000_000_000)));
    assert!(matches!(
        step(&mut round, Answer::Fees(Some(prices(90, 1)))),
        Action::Broadcast(tx, _) if tx == eip1559(Some(90), Some(8))
    ));
    assert!(matches!(
        step(&mut round, Answer::Sent(Err(String::from("nonce too low")))),
        Action::MeasureTime
    ));
    // the last one is never escalated
    assert!(matches!(step(&mut round, Answer::Time), Action::Stop));
    let kept = round.finish();
    assert_eq!(kept.len(), 2);
    assert_eq!(kept[0].hash, Some(H256::repeat_byte(22)));
    assert_eq!(kept[0].inner, legacy(Some(40)));
    assert!(kept[0].creation_time >= now);
    assert_eq!(kept[0].first_broadcast, now);
    assert_eq!(kept[0].initial_prices, prices(20, 0));
    let retried = MonitoredTransaction {
        inner: eip2930(Some(60)),
        ..watched(None, eip2930(Some(30)), now)
    };
    assert_eq!(kept[1], retried);
    // the next round asks about the first price again, and the fees do not compound
    let mut next = EscalationRound::new(vec![kept[1].clone()]);
    let answers: Vec<Step> = vec![Answer::Block(None), Answer::Time];
    for answer in answers {
        assert!(next.advance(&Double, answer).is_ok());
    }
    assert!(matches!(next.action(), Action::Stop));
    assert_eq!(next.finish(), vec![retried]);
}

#[test]
fn unchanged_transaction_is_kept_without_broadcast() {
    let now = Instant::now();
    let tx = watched(Some(1), legacy(Some(10)), now);
    let mut round = EscalationRound::new(vec![tx.clone()]);
    let answers: Vec<Step> = vec![
        Answer::Block(Some(num(1))),
        Answer::Receipt(Ok(false)),
        Answer::Time,
        Answer::GasPrice(None),
    ];
    for answer in answers {
        assert!(round.advance_with(answer, 0, now, prices(10, 0)).is_ok());
    }
    assert!(matches!(round.action(), Action::Stop));
    assert_eq!(round.finish(), vec![tx]);
}

#[test]
fn failed_receipt_keeps_what_is_not_known_to_be_included() {
    let now = Instant::now();
    let (a, b) = (watched(Some(1), legacy(Some(10)), now), watched(Some(2), midl(), now));
    let mut round = EscalationRound::new(vec![a.clone(), b.clone()]);
    let block: Step = Answer::Block(None);
    assert!(round.advance(&Double, block).is_ok());
    let answer: Step = Answer::Receipt(Err(String::from("offline")));
    assert!(matches!(
        round.advance(&Double, answer),
        Err(GasEscalatorError::MiddlewareError(e)) if e == "offline"
    ));
    assert!(matches!(round.action(), Action::Stop));
    let mut txs = vec![];
    put_back(&mut txs, round.finish());
    assert_eq!(txs, vec![a, b]);
}

#[test]
fn failed_receipt_keeps_what_was_decided_before() {
    let now = Instant::now();
    let (c, d) = (watched(Some(3), legacy(Some(10)), now), watched(None, legacy(Some(10)), now));
    let mut round = EscalationRound::new(vec![
        watched(Some(1), legacy(Some(10)), now),
        watched(None, eip2930(Some(30)), now),
        c.clone(),
        d.clone(),
    ]);
    let answers: Vec<Step> = vec![
        Answer::Block(None),
        Answer::Receipt(Ok(true)),
        Answer::Time,
        Answer::Sent(Ok(H256::repeat_byte(22))),
    ];
    for answer in answers {
        assert!(round.advance(&Double, answer).is_ok());
    }
    assert_eq!(round.current(), Some(&c));
    let answer: Step = Answer::Receipt(Err(String::from("offline")));
    assert!(round.advance(&Double, answer).is_err());
    assert_eq!(round.current(), None);
    let kept = round.finish();
    assert_eq!(kept.len(), 3);
    assert_eq!(kept[0].hash, Some(H256::repeat_byte(22)));
    assert_eq!(kept[0].inner, eip2930(Some(60)));
    assert_eq!(kept[1..].to_vec(), vec![c, d]);
}

#[test]
fn answer_to_another_question_is_ignored() {
    let mut round = EscalationRound::new(vec![watched(Some(1), legacy(Some(10)), Instant::now())]);
    let answer: Step = Answer::GasPrice(None);
    assert!(round.advance(&Double, answer).is_ok());
    assert!(matches!(round.action(), Action::FetchBlock));
}

#[test]
fn base_fee_of_the_block_is_handed_on() {
    let mut round =
        EscalationRound::new(vec![watched(None, eip1559(Some(1), Some(1)), Instant::now())]);
    let block: Step = Answer::Block(Some(num(7)));
    assert!(round.advance(&Double, block).is_ok());
    let time: Step = Answer::Time;
    assert!(round.advance(&Double, time).is_ok());
    assert!(matches!(round.action(), Action::FetchFees(fee) if fee == num(7)));
}

#[test]
fn list_is_taken_and_extended() {
    let now = Instant::now();
    let (a, b) = (watched(Some(1), midl(), now), watched(Some(2), midl(), now));
    let mut txs = vec![a.clone()];
    let taken = take_monitored(&mut txs);
    assert_eq!(taken, vec![a.clone()]);
    assert!(txs.is_empty());
    txs.push(b.clone());
    put_back(&mut txs, taken);
    assert_eq!(txs, vec![b, a]);
}

#[test]
fn task_is_driven_by_its_watcher() {
    let txs: ToEscalate = Default::default();
    let task = EscalationTask::new((), AddTime, Frequency::PerBlock, txs.clone());
    assert!(matches!(task.start::<String>(), MonitorAction::WatchBlocks));
    let timed = EscalationTask::new((), AddTime, Frequency::Duration(250), txs);
    assert!(matches!(timed.start::<String>(), MonitorAction::WatchTimer(250)));
    let next = EscalationTask::<(), AddTime>::monitor::<String>;
    assert!(matches!(next(MonitorEvent::WatcherReady), MonitorAction::Wait));
    assert!(matches!(next(MonitorEvent::Tick), MonitorAction::RunRound));
    assert!(matches!(next(MonitorEvent::RoundDone(Ok(()))), MonitorAction::Wait));
    let failed = MonitorEvent::RoundDone(Err(GasEscalatorError::from(String::from("x"))));
    assert!(matches!(next(failed), MonitorAction::Wait));
    assert!(matches!(next(MonitorEvent::WatcherEnded), MonitorAction::Stop(Ok(()))));
    assert!(matches!(
        next(MonitorEvent::WatcherFailed(String::from("x"))),
        MonitorAction::Stop(Err(GasEscalatorError::MiddlewareError(e))) if e == "x"
    ));
}
