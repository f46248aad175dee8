use rust_decimal::Decimal;
use std::str::FromStr;
use toypay::engine::transactions::TxError;
use toypay::models::decimal_value::DecimalValue;
use toypay::models::input_transaction::InputTransaction;
use toypay::ToyEngine;

fn decimal_value(s: &str) -> DecimalValue {
    let d = Decimal::from_str(s).unwrap();
    DecimalValue {
        mantissa: d.mantissa(),
        scale: d.scale(),
    }
}

fn record(
    transaction_type: &str,
    client: u16,
    tx: u32,
    amount: Option<&str>,
) -> InputTransaction {
    InputTransaction {
        transaction_type: transaction_type.to_string(),
        client,
        tx,
        amount: amount.map(decimal_value),
    }
}

fn centimes(v: DecimalValue) -> i128 {
    assert_eq!(v.scale, 2);
    v.mantissa
}

#[test]
fn test_zero_deposit_changes_nothing() {
    let mut engine = ToyEngine::new();

    let result = engine.dispatch(record("deposit", 1, 1, Some("0")));
    assert!(result.is_err());

    let accounts = engine.get_all_accounts();
    assert_eq!(accounts.len(), 0);
}

#[test]
fn test_dispute_resolve_scenario() {
    let mut engine = ToyEngine::new();
    engine.dispatch(record("deposit", 1, 1, Some("20.00"))).unwrap();
    engine.dispatch(record("dispute", 1, 1, None)).unwrap();

    let accounts = engine.get_all_accounts();
    assert_eq!(centimes(accounts[0].available), 0);
    assert_eq!(centimes(accounts[0].held), 2000);

    engine.dispatch(record("resolve", 1, 1, None)).unwrap();

    let accounts = engine.get_all_accounts();
    assert_eq!(centimes(accounts[0].available), 2000);
    assert_eq!(centimes(accounts[0].held), 0);
    assert!(!accounts[0].locked);
}

#[test]
fn test_chargeback_freezes_account() {
    let mut engine = ToyEngine::new();
    engine.dispatch(record("deposit", 1, 1, Some("10.00"))).unwrap();
    engine.dispatch(record("dispute", 1, 1, None)).unwrap();
    engine.dispatch(record("chargeback", 1, 1, None)).unwrap();

    let accounts = engine.get_all_accounts();
    assert_eq!(centimes(accounts[0].available), 0);
    assert_eq!(centimes(accounts[0].held), 0);
    assert!(accounts[0].locked);

    // a later deposit to the frozen account is dropped
    engine.dispatch(record("deposit", 1, 2, Some("5.00"))).unwrap();

    let accounts = engine.get_all_accounts();
    assert_eq!(centimes(accounts[0].available), 0);
    assert!(accounts[0].locked);
}

#[test]
fn test_locked_account_withdrawal_unchanged() {
    let mut engine = ToyEngine::new();
    engine.dispatch(record("deposit", 1, 1, Some("50.00"))).unwrap();
    engine.dispatch(record("deposit", 1, 2, Some("10.00"))).unwrap();
    engine.dispatch(record("dispute", 1, 2, None)).unwrap();
    engine.dispatch(record("chargeback", 1, 2, None)).unwrap();

    // locked with 50.00 still available; neither direction moves it
    engine.dispatch(record("withdrawal", 1, 3, Some("20.00"))).unwrap();
    engine.dispatch(record("deposit", 1, 4, Some("20.00"))).unwrap();

    let accounts = engine.get_all_accounts();
    assert_eq!(centimes(accounts[0].available), 5000);
    assert_eq!(centimes(accounts[0].held), 0);
    assert!(accounts[0].locked);
}

#[test]
fn test_double_dispute_is_noop() {
    let mut engine = ToyEngine::new();
    engine.dispatch(record("deposit", 1, 1, Some("10.00"))).unwrap();
    engine.dispatch(record("deposit", 1, 2, Some("10.00"))).unwrap();
    engine.dispatch(record("dispute", 1, 1, None)).unwrap();

    // the same transaction cannot be disputed again: no double hold
    engine.dispatch(record("dispute", 1, 1, None)).unwrap();

    let accounts = engine.get_all_accounts();
    assert_eq!(centimes(accounts[0].available), 1000);
    assert_eq!(centimes(accounts[0].held), 1000);
}

#[test]
fn test_balances_stay_nonnegative() {
    let mut engine = ToyEngine::new();
    engine.dispatch(record("deposit", 1, 1, Some("10.00"))).unwrap();
    engine.dispatch(record("withdrawal", 1, 2, Some("8.00"))).unwrap();

    // an unfundable dispute is dropped rather than pushing available below zero
    engine.dispatch(record("dispute", 1, 1, None)).unwrap();

    let accounts = engine.get_all_accounts();
    assert_eq!(centimes(accounts[0].available), 200);
    assert_eq!(centimes(accounts[0].held), 0);
}

#[test]
fn test_unknown_transaction_type() {
    let mut engine = ToyEngine::new();

    let result = engine.dispatch(record("transfer", 1, 1, Some("10.00")));
    assert_eq!(result.unwrap_err(), TxError::UnknownTransactionType);

    let accounts = engine.get_all_accounts();
    assert_eq!(accounts.len(), 0);
}

#[test]
fn test_amount_error_variants() {
    let mut engine = ToyEngine::new();

    let result = engine.dispatch(record("deposit", 1, 1, Some("-10.00")));
    assert_eq!(result.unwrap_err(), TxError::AmountNegative);

    let result = engine.dispatch(record("deposit", 1, 2, Some("99999999.00")));
    assert_eq!(result.unwrap_err(), TxError::AmountTooLarge);

    let result = engine.dispatch(record("withdrawal", 1, 3, Some("0.005")));
    assert_eq!(result.unwrap_err(), TxError::AmountPrecisionLoss);

    let accounts = engine.get_all_accounts();
    assert_eq!(accounts.len(), 0);
}

#[test]
fn test_snapshot_sorted_by_client() {
    let mut engine = ToyEngine::new();
    engine.dispatch(record("deposit", 9, 1, Some("3.00"))).unwrap();
    engine.dispatch(record("deposit", 3, 2, Some("1.00"))).unwrap();
    engine.dispatch(record("deposit", 5, 3, Some("2.00"))).unwrap();

    let accounts = engine.get_all_accounts();
    assert_eq!(accounts.len(), 3);
    assert_eq!(accounts[0].client, 3);
    assert_eq!(accounts[1].client, 5);
    assert_eq!(accounts[2].client, 9);
    assert_eq!(centimes(accounts[0].available), 100);
    assert_eq!(centimes(accounts[1].available), 200);
    assert_eq!(centimes(accounts[2].available), 300);
}

#[test]
fn test_old_transaction_evicted_after_capacity() {
    let mut engine = ToyEngine::new();

    // one more deposit than a partition's transaction table can hold
    for tx_id in 1..=100001u32 {
        engine.dispatch(record("deposit", 1, tx_id, Some("1.00"))).unwrap();
    }

    // the oldest record has been evicted, so its dispute is a silent no-op
    engine.dispatch(record("dispute", 1, 1, None)).unwrap();

    let accounts = engine.get_all_accounts();
    assert_eq!(centimes(accounts[0].available), 10000100);
    assert_eq!(centimes(accounts[0].held), 0);

    // a still-resident record can be disputed
    engine.dispatch(record("dispute", 1, 100001, None)).unwrap();

    let accounts = engine.get_all_accounts();
    assert_eq!(centimes(accounts[0].available), 10000000);
    assert_eq!(centimes(accounts[0].held), 100);
}
