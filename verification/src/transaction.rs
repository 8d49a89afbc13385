use vstd::prelude::*;

use crate::amount::Amount;
use crate::error::{Error, TransactionFault};

verus! {

/// The five transaction types the engine accepts.
#[derive(Clone, Copy, PartialEq, Eq, Structural, Debug)]
pub enum TransactionType {
    Chargeback,
    Deposit,
    Dispute,
    Resolve,
    Withdrawal,
}

/// One inbound transaction, as handed to the engine by the caller.
///
/// `amount` is present for deposits and withdrawals and absent for disputes,
/// resolves and chargebacks, whose amount is recovered from the stored record
/// of the transaction they cite.
#[derive(Clone, Copy, Debug)]
pub struct Transaction {
    pub tx_type: TransactionType,
    pub account_id: u16,
    pub tx_id: u32,
    pub amount: Option<Amount>,
}

/// The stored record of a successfully applied deposit or withdrawal, kept
/// for correlating later disputes, resolves and chargebacks.
#[derive(Clone, Copy, PartialEq, Eq, Structural, Debug)]
pub struct TxRecord {
    pub tx_type: TransactionType,
    pub account_id: u16,
    pub amount: Amount,
}

/// The record a transaction gives rise to: its type, account and amount, or
/// a `MissingAmount` failure when the transaction carries no amount.
pub open spec fn spec_record_of(tx: Transaction) -> Result<TxRecord, Error> {
    match tx.amount {
        Some(a) => Ok(TxRecord { tx_type: tx.tx_type, account_id: tx.account_id, amount: a }),
        None => Err(Error::TransactionError(TransactionFault::MissingAmount)),
    }
}

impl TxRecord {
    /// Builds the stored record for `tx`; fails when `tx` carries no amount.
    pub fn try_from(tx: &Transaction) -> (r: Result<TxRecord, Error>)
        ensures
            r == spec_record_of(*tx),
    {
        match tx.amount {
            Some(a) => Ok(
                TxRecord { tx_type: tx.tx_type, account_id: tx.account_id, amount: a },
            ),
            None => Err(Error::TransactionError(TransactionFault::MissingAmount)),
        }
    }
}

} // verus!
