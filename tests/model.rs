use rust_decimal::Decimal;
use std::str::FromStr;
use txledger::amount::Amount;
use txledger::model::{Account, ProcessError, RecordKind, TxRecord};

fn dec(s: &str) -> Amount {
    let d = Decimal::from_str(s).unwrap();
    Amount::from_parts(d.mantissa(), d.scale()).unwrap()
}

#[test]
fn make_account_with_getters() {
    let account = Account::new();
    assert_eq!(account.available(), dec("0"));
    assert_eq!(account.held(), dec("0"));
    assert!(!account.locked());
}

#[test]
fn test_account_total() {
    let mut account = Account::new();
    account.modify_available(&dec("10"), &RecordKind::Deposit).unwrap();
    account.modify_held(&dec("3"), &RecordKind::Deposit).unwrap();
    assert_eq!(account.available(), dec("10"));
    assert_eq!(account.held(), dec("3"));
    assert_eq!(account.total(), account.available().checked_add(account.held()));
}

#[test]
fn test_modify_held_and_available() {
    let mut account = Account::new();
    account.modify_available(&dec("10"), &RecordKind::Deposit).unwrap();
    account.modify_held(&dec("20"), &RecordKind::Deposit).unwrap();
    assert_eq!(account.available(), dec("10"));
    assert_eq!(account.held(), dec("20"));
    assert_eq!(account.total(), Some(dec("30")));
}

#[test]
fn test_lock_unlock() {
    let mut account = Account::new();
    account.lock();
    assert!(account.locked());
    account.unlock();
    assert!(!account.locked());
}

#[test]
fn test_dispute_funds_and_resolve_funds() {
    let mut account = Account::new();
    account.modify_available(&dec("10"), &RecordKind::Deposit).unwrap();
    account.dispute_funds(&dec("7"), &RecordKind::Deposit).unwrap();
    assert_eq!(account.available(), dec("3"));
    assert_eq!(account.held(), dec("7"));
    account.resolve_funds(&dec("7"), &RecordKind::Deposit).unwrap();
    assert_eq!(account.available(), dec("10"));
    assert_eq!(account.held(), dec("0"));
}

#[test]
fn test_new_with_getters() {
    let record = TxRecord::new(1, dec("1"), false, RecordKind::Withdrawal);
    assert_eq!(record.amount(), dec("1"));
    assert_eq!(record.client(), 1);
    assert_eq!(record.kind(), RecordKind::Withdrawal);
    assert!(!record.dispute_finished());
    assert!(!record.disputed());
}

#[test]
fn test_modify_disputed() {
    let mut record = TxRecord::new(1, dec("1"), false, RecordKind::Withdrawal);
    record.modify_disputed(true);
    assert!(record.disputed());
    record.finish_dispute();
    assert!(record.dispute_finished());
}

#[test]
fn withdrawal_kind_subtracts_from_available() {
    let mut account = Account::new();
    account.modify_available(&dec("5.25"), &RecordKind::Deposit).unwrap();
    account.modify_available(&dec("1.5"), &RecordKind::Withdrawal).unwrap();
    assert_eq!(account.available(), dec("3.75"));
    account.modify_held(&dec("0.75"), &RecordKind::Withdrawal).unwrap();
    assert_eq!(account.held(), dec("-0.75"));
}

#[test]
fn dispute_of_withdrawal_moves_funds_back_to_available() {
    let mut account = Account::new();
    account.dispute_funds(&dec("1.5"), &RecordKind::Withdrawal).unwrap();
    assert_eq!(account.available(), dec("1.5"));
    assert_eq!(account.held(), dec("-1.5"));
    assert_eq!(account.total(), Some(dec("0")));
    account.resolve_funds(&dec("1.5"), &RecordKind::Withdrawal).unwrap();
    assert_eq!(account.available(), dec("0"));
    assert_eq!(account.held(), dec("0"));
}

#[test]
fn chargeback_funds_removes_held_and_locks() {
    let mut account = Account::new();
    account.modify_available(&dec("2.0"), &RecordKind::Deposit).unwrap();
    account.dispute_funds(&dec("2.0"), &RecordKind::Deposit).unwrap();
    account.chargeback_funds(&dec("2.0"), &RecordKind::Deposit).unwrap();
    assert_eq!(account.available(), dec("0"));
    assert_eq!(account.held(), dec("0"));
    assert_eq!(account.total(), Some(dec("0")));
    assert!(account.locked());
}

#[test]
fn overflow_leaves_account_unchanged() {
    let max = Amount::from_parts(txledger::amount::MAX_MANTISSA, 0).unwrap();
    let mut account = Account::new();
    account.modify_available(&max, &RecordKind::Deposit).unwrap();
    assert_eq!(account.modify_available(&max, &RecordKind::Deposit), Err(ProcessError::Overflow));
    assert_eq!(account.available(), max);
    assert_eq!(account.dispute_funds(&max, &RecordKind::Withdrawal), Err(ProcessError::Overflow));
    assert_eq!(account.available(), max);
    assert_eq!(account.held(), dec("0"));
}

#[test]
fn amounts_compare_by_value() {
    assert_eq!(dec("1.500"), dec("1.5"));
    assert_ne!(dec("1.5"), dec("1.51"));
    assert!(dec("2").ge(&dec("1.99")));
    assert!(!dec("1.99").ge(&dec("2")));
    assert!(dec("1.5").same_value(&dec("1.50")));
    assert_eq!(dec("1.5").checked_add(dec("2.25")), Some(dec("3.75")));
    assert_eq!(dec("1.5").checked_sub(dec("2.25")), Some(dec("-0.75")));
    assert_eq!(Amount::new(15, 1), dec("1.5"));
    assert_eq!(Amount::from_parts(1, 29), None);
    assert_eq!(Amount::zero(), dec("0.00"));
}
