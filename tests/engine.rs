use rust_decimal::Decimal;
use std::str::FromStr;
use txledger::amount::Amount;
use txledger::dispatcher::{DispatchError, Dispatcher, Route};
use txledger::model::{Account, ClientId, ProcessError, TxEvent, TxId, TxKindRaw};
use txledger::processor::Processor;

fn dec(s: &str) -> Amount {
    let d = Decimal::from_str(s).unwrap();
    Amount::from_parts(d.mantissa(), d.scale()).unwrap()
}

fn ev(kind: TxKindRaw, client: ClientId, tx: TxId, amount: Option<&str>) -> TxEvent {
    TxEvent { kind, client, tx, amount: amount.map(dec) }
}

fn deposit(client: ClientId, tx: TxId, amount: &str) -> TxEvent {
    ev(TxKindRaw::Deposit, client, tx, Some(amount))
}

fn withdrawal(client: ClientId, tx: TxId, amount: &str) -> TxEvent {
    ev(TxKindRaw::Withdrawal, client, tx, Some(amount))
}

fn run(events: &[TxEvent]) -> Processor {
    let mut p = Processor::default();
    for e in events {
        p.process(*e).unwrap();
    }
    p
}

fn account(p: &Processor, client: ClientId) -> Account {
    *p.accounts().get(&client).unwrap()
}

#[test]
fn deposits_of_two_clients() {
    let p = run(&[deposit(1, 1, "1.5"), deposit(2, 2, "2.0")]);
    assert_eq!(account(&p, 1).available(), dec("1.5"));
    assert_eq!(account(&p, 2).available(), dec("2.0"));
}

#[test]
fn deposit_then_withdrawal() {
    let p = run(&[deposit(1, 1, "1.0"), withdrawal(1, 2, "0.5")]);
    assert_eq!(account(&p, 1).available(), dec("0.5"));
}

#[test]
fn chargeback_empties_and_locks() {
    let p = run(&[
        deposit(1, 1, "2.0"),
        ev(TxKindRaw::Dispute, 1, 1, None),
        ev(TxKindRaw::Chargeback, 1, 1, None),
    ]);
    let a = account(&p, 1);
    assert_eq!(a.available(), dec("0"));
    assert_eq!(a.held(), dec("0"));
    assert_eq!(a.total(), Some(dec("0")));
    assert!(a.locked());
}

#[test]
fn dispute_then_resolve_restores() {
    let p = run(&[
        deposit(1, 1, "1.5"),
        ev(TxKindRaw::Dispute, 1, 1, None),
        ev(TxKindRaw::Resolve, 1, 1, None),
    ]);
    let a = account(&p, 1);
    assert_eq!(a.available(), dec("1.5"));
    assert_eq!(a.held(), dec("0"));
    assert!(!a.locked());
    let rec = *p.tx_history().get(&1).unwrap();
    assert!(rec.disputed() && rec.dispute_finished());
}

#[test]
fn rejected_withdrawal_is_still_recorded() {
    let mut p = run(&[withdrawal(1, 1, "1.5")]);
    let a = account(&p, 1);
    assert_eq!(a.available(), dec("0"));
    assert_eq!(a.held(), dec("0"));
    assert!(p.tx_history().get(&1).is_some());
    p.process(ev(TxKindRaw::Dispute, 1, 1, None)).unwrap();
    let a = account(&p, 1);
    assert_eq!(a.available(), dec("1.5"));
    assert_eq!(a.held(), dec("-1.5"));
    assert_eq!(a.total(), Some(dec("0")));
}

#[test]
fn repeated_dispute_resolve_chargeback_change_nothing() {
    let mut p = run(&[deposit(1, 1, "2.0"), ev(TxKindRaw::Dispute, 1, 1, None)]);
    p.process(ev(TxKindRaw::Dispute, 1, 1, None)).unwrap();
    assert_eq!(account(&p, 1).available(), dec("0"));
    assert_eq!(account(&p, 1).held(), dec("2.0"));
    p.process(ev(TxKindRaw::Resolve, 1, 1, None)).unwrap();
    p.process(ev(TxKindRaw::Resolve, 1, 1, None)).unwrap();
    p.process(ev(TxKindRaw::Chargeback, 1, 1, None)).unwrap();
    p.process(ev(TxKindRaw::Dispute, 1, 1, None)).unwrap();
    let a = account(&p, 1);
    assert_eq!(a.available(), dec("2.0"));
    assert_eq!(a.held(), dec("0"));
    assert!(!a.locked());
}

#[test]
fn locked_account_rules() {
    let mut p = run(&[
        deposit(1, 1, "2.0"),
        deposit(1, 2, "1.0"),
        ev(TxKindRaw::Dispute, 1, 1, None),
        ev(TxKindRaw::Chargeback, 1, 1, None),
    ]);
    assert!(account(&p, 1).locked());
    assert_eq!(account(&p, 1).available(), dec("1.0"));
    p.process(deposit(1, 3, "0.5")).unwrap();
    assert_eq!(account(&p, 1).available(), dec("1.5"));
    p.process(withdrawal(1, 4, "0.5")).unwrap();
    assert_eq!(account(&p, 1).available(), dec("1.5"));
    p.process(ev(TxKindRaw::Dispute, 1, 2, None)).unwrap();
    let a = account(&p, 1);
    assert_eq!(a.available(), dec("1.5"));
    assert_eq!(a.held(), dec("0"));
    assert!(p.tx_history().get(&2).unwrap().disputed());
    p.process(ev(TxKindRaw::Chargeback, 1, 2, None)).unwrap();
    assert_eq!(account(&p, 1).held(), dec("0"));
    assert!(p.tx_history().get(&2).unwrap().dispute_finished());
}

#[test]
fn missing_amount_is_an_error_with_no_effect() {
    let mut p = Processor::default();
    assert_eq!(p.process(ev(TxKindRaw::Deposit, 1, 1, None)), Err(ProcessError::MissingAmount));
    assert_eq!(p.process(ev(TxKindRaw::Withdrawal, 1, 2, None)), Err(ProcessError::MissingAmount));
    assert!(p.accounts().get(&1).is_none());
    assert!(p.tx_history().get(&1).is_none());
}

#[test]
fn overflowing_deposit_is_an_error_with_no_effect() {
    let max = Amount::from_parts(txledger::amount::MAX_MANTISSA, 0).unwrap();
    let mut p = Processor::default();
    p.process(TxEvent { kind: TxKindRaw::Deposit, client: 1, tx: 1, amount: Some(max) }).unwrap();
    let r = p.process(TxEvent { kind: TxKindRaw::Deposit, client: 1, tx: 2, amount: Some(max) });
    assert_eq!(r, Err(ProcessError::Overflow));
    assert_eq!(account(&p, 1).available(), max);
    assert!(p.tx_history().get(&2).is_none());
}

#[test]
fn dispute_of_unknown_tx_is_ignored() {
    let mut p = run(&[deposit(1, 1, "1.0")]);
    p.process(ev(TxKindRaw::Dispute, 1, 9, None)).unwrap();
    p.process(ev(TxKindRaw::Resolve, 1, 1, None)).unwrap();
    p.process(ev(TxKindRaw::Chargeback, 1, 1, None)).unwrap();
    let a = account(&p, 1);
    assert_eq!(a.available(), dec("1.0"));
    assert_eq!(a.held(), dec("0"));
    assert!(!a.locked());
}

#[test]
fn dispute_goes_to_the_recorded_client() {
    let mut p = run(&[deposit(1, 1, "1.0"), deposit(2, 2, "3.0")]);
    p.process(ev(TxKindRaw::Dispute, 2, 1, None)).unwrap();
    assert_eq!(account(&p, 1).held(), dec("1.0"));
    assert_eq!(account(&p, 2).held(), dec("0"));
}

#[test]
fn reused_tx_id_overwrites_the_record() {
    let p = run(&[deposit(1, 1, "1.0"), withdrawal(1, 1, "0.25")]);
    let rec = *p.tx_history().get(&1).unwrap();
    assert_eq!(rec.amount(), dec("0.25"));
    assert_eq!(account(&p, 1).available(), dec("0.75"));
}

#[test]
fn lane_skips_failures_and_reports_them() {
    let mut p = Processor::default();
    let events = vec![
        deposit(1, 1, "1.0"),
        ev(TxKindRaw::Deposit, 1, 2, None),
        withdrawal(1, 3, "0.4"),
    ];
    let failures = p.run_lane(&events);
    assert_eq!(failures, vec![(1, 2, ProcessError::MissingAmount)]);
    assert_eq!(account(&p, 1).available(), dec("0.6"));
}

#[test]
fn dispatcher_opens_one_lane_per_client() {
    let mut d = Dispatcher::new();
    assert_eq!(d.route(&deposit(7, 1, "1")), Ok(Route::Open(0)));
    assert_eq!(d.route(&deposit(3, 2, "1")), Ok(Route::Open(1)));
    assert_eq!(d.route(&deposit(7, 3, "1")), Ok(Route::Existing(0)));
    assert_eq!(d.route(&deposit(3, 4, "1")), Ok(Route::Existing(1)));
    assert_eq!(d.lane_count(), 2);
    d.close();
    assert_eq!(d.route(&deposit(9, 5, "1")), Err(DispatchError::ShutDown));
    assert_eq!(d.lane_count(), 2);
}

#[test]
fn single_client_lane_matches_sequential_run() {
    let events = vec![
        deposit(1, 1, "3.0"),
        withdrawal(1, 2, "1.0"),
        ev(TxKindRaw::Dispute, 1, 1, None),
        ev(TxKindRaw::Resolve, 1, 1, None),
    ];
    let mut d = Dispatcher::new();
    let mut lane = Vec::new();
    for e in &events {
        let r = d.route(e).unwrap();
        assert_eq!(r.clone(), if lane.is_empty() { Route::Open(0) } else { Route::Existing(0) });
        lane.push(*e);
    }
    let mut by_lane = Processor::default();
    by_lane.run_lane(&lane);
    let sequential = run(&events);
    assert_eq!(account(&by_lane, 1).available(), account(&sequential, 1).available());
    assert_eq!(account(&by_lane, 1).available(), dec("2.0"));
}
