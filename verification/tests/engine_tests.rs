use payments_engine::amount::Amount;
use payments_engine::engine::PaymentsEngine;
use payments_engine::transaction::{Transaction, TransactionType};

fn amt(n: i64) -> Amount {
    Amount::from_whole(n).unwrap()
}

fn new_tx(
    tx_type: TransactionType,
    account_id: u16,
    tx_id: u32,
    amount: Option<Amount>,
) -> Transaction {
    Transaction { tx_type, account_id, tx_id, amount }
}

fn new_engine_with_deposit(account_id: u16, tx_id: u32, amount: Amount) -> PaymentsEngine {
    let mut engine = PaymentsEngine::new();
    let deposit = new_tx(TransactionType::Deposit, account_id, tx_id, Some(amount));
    engine.process_tx(&deposit).unwrap();

    engine
}

#[test]
fn engine_test_deposit_success() {
    let mut engine = PaymentsEngine::new();
    let deposit_tx = new_tx(TransactionType::Deposit, 1, 1, Some(amt(100)));

    engine.process_tx(&deposit_tx).unwrap();

    let account = engine.accounts.get(&1).unwrap();
    assert_eq!(account.available, amt(100));
    assert_eq!(account.held, amt(0));
}

#[test]
fn engine_test_withdrawal_success() {
    let mut engine = new_engine_with_deposit(1, 1, amt(100));
    let withdrawal_tx = new_tx(TransactionType::Withdrawal, 1, 2, Some(amt(60)));

    engine.process_tx(&withdrawal_tx).unwrap();

    let account = engine.accounts.get(&1).unwrap();
    assert_eq!(account.available, amt(40));
}

#[test]
fn engine_test_dispute_success() {
    let mut engine = new_engine_with_deposit(1, 1, amt(100));
    let dispute_tx = new_tx(TransactionType::Dispute, 1, 1, None);

    engine.process_tx(&dispute_tx).unwrap();

    let account = engine.accounts.get(&1).unwrap();
    assert_eq!(account.available, amt(0));
    assert_eq!(account.held, amt(100));
}

#[test]
fn engine_test_resolve_success() {
    let mut engine = new_engine_with_deposit(1, 1, amt(100));
    let dispute_tx = new_tx(TransactionType::Dispute, 1, 1, None);
    let resolve_tx = new_tx(TransactionType::Resolve, 1, 1, None);

    engine.process_tx(&dispute_tx).unwrap();
    engine.process_tx(&resolve_tx).unwrap();

    let account = engine.accounts.get(&1).unwrap();
    assert_eq!(account.available, amt(100));
    assert_eq!(account.held, amt(0));
}

#[test]
fn engine_test_chargeback_success() {
    let mut engine = new_engine_with_deposit(1, 1, amt(100));
    let dispute_tx = new_tx(TransactionType::Dispute, 1, 1, None);
    let chargeback_tx = new_tx(TransactionType::Chargeback, 1, 1, None);

    engine.process_tx(&dispute_tx).unwrap();
    engine.process_tx(&chargeback_tx).unwrap();

    let account = engine.accounts.get(&1).unwrap();
    assert_eq!(account.available, amt(0));
    assert_eq!(account.held, amt(0));
    assert!(account.locked);
}
