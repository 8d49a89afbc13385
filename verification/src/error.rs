use vstd::prelude::*;

verus! {

/// Account-level failures: the account's own state forbids the operation.
#[derive(Clone, Copy, PartialEq, Eq, Structural, Debug)]
pub enum AccountFault {
    /// The account is locked; every mutating operation is refused.
    Locked,
    /// The account does not hold enough available, held or total funds.
    InsufficientFunds,
}

/// Transaction-level failures: the transaction itself is unacceptable.
#[derive(Clone, Copy, PartialEq, Eq, Structural, Debug)]
pub enum TransactionFault {
    /// A deposit or withdrawal amount is below zero.
    NegativeAmount,
    /// A deposit or withdrawal carries no amount.
    MissingAmount,
    /// A dispute, resolve or chargeback cites a transaction that belongs to
    /// another account.
    OwnerMismatch,
    /// An addition would leave the representable range.
    Overflow,
    /// A subtraction would leave the representable range.
    Underflow,
}

/// A failure raised while applying a single transaction. Every failure is
/// terminal for that transaction alone: the caller reports it and moves on.
#[derive(Clone, Copy, PartialEq, Eq, Structural, Debug)]
pub enum Error {
    AccountError(AccountFault),
    TransactionError(TransactionFault),
}

impl Error {
    /// A short human-readable description of the failure.
    pub fn describe(&self) -> (r: &'static str)
    {
        match self {
            Error::AccountError(AccountFault::Locked) => {
                "account is locked: all transactions are currently unavailable"
            },
            Error::AccountError(AccountFault::InsufficientFunds) => {
                "insufficient funds to complete the transaction"
            },
            Error::TransactionError(TransactionFault::NegativeAmount) => {
                "deposit and withdrawal amounts must not be negative"
            },
            Error::TransactionError(TransactionFault::MissingAmount) => {
                "transaction amount is missing"
            },
            Error::TransactionError(TransactionFault::OwnerMismatch) => {
                "transaction account id does not match the account"
            },
            Error::TransactionError(TransactionFault::Overflow) => {
                "overflow: the transaction amount is out of range"
            },
            Error::TransactionError(TransactionFault::Underflow) => {
                "underflow: the transaction amount is out of range"
            },
        }
    }
}

} // verus!
