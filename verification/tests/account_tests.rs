use payments_engine::account::Account;
use payments_engine::amount::Amount;

fn amt(n: i64) -> Amount {
    Amount::from_whole(n).unwrap()
}

#[test]
fn account_test_deposit_success() {
    let mut account = Account::new(1);
    account.deposit(amt(100)).unwrap();

    assert_eq!(account.available, amt(100));
    assert_eq!(account.total, amt(100));
    assert_eq!(account.held, amt(0));
    assert!(!account.locked);
}

#[test]
fn test_deposit_failure_overflow() {
    let mut account = Account::new(1);
    account.deposit(amt(1)).unwrap();
    let result = account.deposit(Amount::max_value());

    assert!(result.is_err());
}

#[test]
fn test_deposit_failure_locked_account() {
    let mut account = Account::new(1);
    account.locked = true;
    let result = account.deposit(amt(100));

    assert!(result.is_err());
}

#[test]
fn account_test_withdrawal_success() {
    let mut account = Account::new(1);
    account.deposit(amt(100)).unwrap();
    account.withdrawal(amt(40)).unwrap();

    assert_eq!(account.available, amt(60));
    assert_eq!(account.total, amt(60));
}

#[test]
fn test_withdrawal_failure_insufficient_funds() {
    let mut account = Account::new(1);
    account.deposit(amt(50)).unwrap();
    let result = account.withdrawal(amt(60));

    assert!(result.is_err());
    assert_eq!(account.available, amt(50));
}

#[test]
fn test_withdrawal_failure_locked_account() {
    let mut account = Account::new(1);
    account.deposit(amt(100)).unwrap();
    account.locked = true;
    let result = account.withdrawal(amt(10));

    assert!(result.is_err());
}

#[test]
fn account_test_dispute_success() {
    let mut account = Account::new(1);
    account.deposit(amt(100)).unwrap();
    account.dispute(amt(60)).unwrap();

    assert_eq!(account.available, amt(40));
    assert_eq!(account.held, amt(60));
    assert_eq!(account.total, amt(100));
}

#[test]
fn test_dispute_failure_insufficient_available_funds() {
    let mut account = Account::new(1);
    account.deposit(amt(60)).unwrap();

    let result = account.dispute(amt(80));

    assert!(result.is_err());
}

#[test]
fn account_test_resolve_success() {
    let mut account = Account::new(1);
    account.deposit(amt(100)).unwrap();
    account.dispute(amt(60)).unwrap();

    assert_eq!(account.available, amt(40));

    account.resolve(amt(60)).unwrap();

    assert_eq!(account.available, amt(100));
    assert_eq!(account.held, amt(0));
    assert_eq!(account.total, amt(100));
}

#[test]
fn test_resolve_failure_insufficient_held_funds() {
    let mut account = Account::new(1);
    account.deposit(amt(100)).unwrap();
    account.dispute(amt(60)).unwrap();

    let result = account.resolve(amt(80));

    assert!(result.is_err());
}

#[test]
fn account_test_chargeback_success() {
    let mut account = Account::new(1);
    account.deposit(amt(100)).unwrap();
    account.dispute(amt(60)).unwrap();

    assert_eq!(account.total, amt(100));
    assert!(!account.locked);

    account.chargeback(amt(60)).unwrap();

    assert_eq!(account.total, amt(40));
    assert_eq!(account.held, amt(0));
    assert!(account.locked);
}

#[test]
fn test_chargeback_failure_insufficient_held_funds() {
    let mut account = Account::new(1);
    account.deposit(amt(100)).unwrap();
    account.dispute(amt(60)).unwrap();

    let result = account.chargeback(amt(80));

    assert!(result.is_err());
}

#[test]
fn test_check_lock() {
    let mut account = Account::new(1);
    assert!(account.check_lock().is_ok());

    account.locked = true;
    assert!(account.check_lock().is_err());
}

#[test]
fn test_check_negative_amount_success() {
    let result = Account::check_negative_amount(amt(1));

    assert!(result.is_ok());
}

#[test]
fn test_check_negative_amount_failure() {
    let result = Account::check_negative_amount(amt(-1));

    assert!(result.is_err());
}
