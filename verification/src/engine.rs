use vstd::prelude::*;

use std::collections::HashMap;

use crate::account::{spec_new_account, Account};
use crate::error::{AccountFault, Error, TransactionFault};
use crate::transaction::{spec_record_of, Transaction, TransactionType, TxRecord};

verus! {

broadcast use vstd::std_specs::hash::group_hash_axioms;

/// The account the engine works on for `id`: the stored one, or a fresh
/// account when that id has never been seen.
pub open spec fn spec_fetched(accounts: Map<u16, Account>, id: u16) -> Account {
    if accounts.contains_key(id) {
        accounts[id]
    } else {
        spec_new_account(id)
    }
}

/// The engine state and result after a deposit: the target account is
/// fetched or created, the transaction must carry an amount, the account
/// takes the deposit, and only on success is the record stored under the
/// transaction id (overwriting any earlier record under that id).
pub open spec fn spec_process_deposit(
    accounts: Map<u16, Account>,
    records: Map<u32, TxRecord>,
    tx: Transaction,
) -> (Map<u16, Account>, Map<u32, TxRecord>, Result<(), Error>) {
    let a0 = spec_fetched(accounts, tx.account_id);
    match spec_record_of(tx) {
        Err(e) => (accounts.insert(tx.account_id, a0), records, Err(e)),
        Ok(rec) => match a0.spec_deposit(rec.amount@) {
            Ok(a2) => (accounts.insert(tx.account_id, a2), records.insert(tx.tx_id, rec), Ok(())),
            Err(e) => (accounts.insert(tx.account_id, a0), records, Err(e)),
        },
    }
}

/// The engine state and result after a withdrawal; exactly as a deposit,
/// with the account giving up the funds instead of receiving them.
pub open spec fn spec_process_withdrawal(
    accounts: Map<u16, Account>,
    records: Map<u32, TxRecord>,
    tx: Transaction,
) -> (Map<u16, Account>, Map<u32, TxRecord>, Result<(), Error>) {
    let a0 = spec_fetched(accounts, tx.account_id);
    match spec_record_of(tx) {
        Err(e) => (accounts.insert(tx.account_id, a0), records, Err(e)),
        Ok(rec) => match a0.spec_withdrawal(rec.amount@) {
            Ok(a2) => (accounts.insert(tx.account_id, a2), records.insert(tx.tx_id, rec), Ok(())),
            Err(e) => (accounts.insert(tx.account_id, a0), records, Err(e)),
        },
    }
}

/// The engine state and result after a dispute: a citation of an unknown
/// transaction id is silently ignored; a record owned by another account is
/// an owner mismatch; otherwise the account disputes the recorded amount.
/// The record store never changes.
pub open spec fn spec_process_dispute(
    accounts: Map<u16, Account>,
    records: Map<u32, TxRecord>,
    tx: Transaction,
) -> (Map<u16, Account>, Map<u32, TxRecord>, Result<(), Error>) {
    let a0 = spec_fetched(accounts, tx.account_id);
    if !records.contains_key(tx.tx_id) {
        (accounts.insert(tx.account_id, a0), records, Ok(()))
    } else if records[tx.tx_id].account_id != tx.account_id {
        (
            accounts.insert(tx.account_id, a0),
            records,
            Err(Error::TransactionError(TransactionFault::OwnerMismatch)),
        )
    } else {
        match a0.spec_dispute(records[tx.tx_id].amount@) {
            Ok(a2) => (accounts.insert(tx.account_id, a2), records, Ok(())),
            Err(e) => (accounts.insert(tx.account_id, a0), records, Err(e)),
        }
    }
}

/// The engine state and result after a resolve; correlated exactly as a
/// dispute, with the account releasing the held funds.
pub open spec fn spec_process_resolve(
    accounts: Map<u16, Account>,
    records: Map<u32, TxRecord>,
    tx: Transaction,
) -> (Map<u16, Account>, Map<u32, TxRecord>, Result<(), Error>) {
    let a0 = spec_fetched(accounts, tx.account_id);
    if !records.contains_key(tx.tx_id) {
        (accounts.insert(tx.account_id, a0), records, Ok(()))
    } else if records[tx.tx_id].account_id != tx.account_id {
        (
            accounts.insert(tx.account_id, a0),
            records,
            Err(Error::TransactionError(TransactionFault::OwnerMismatch)),
        )
    } else {
        match a0.spec_resolve(records[tx.tx_id].amount@) {
            Ok(a2) => (accounts.insert(tx.account_id, a2), records, Ok(())),
            Err(e) => (accounts.insert(tx.account_id, a0), records, Err(e)),
        }
    }
}

/// The engine state and result after a chargeback; correlated exactly as a
/// dispute, with the account giving the funds back and locking.
pub open spec fn spec_process_chargeback(
    accounts: Map<u16, Account>,
    records: Map<u32, TxRecord>,
    tx: Transaction,
) -> (Map<u16, Account>, Map<u32, TxRecord>, Result<(), Error>) {
    let a0 = spec_fetched(accounts, tx.account_id);
    if !records.contains_key(tx.tx_id) {
        (accounts.insert(tx.account_id, a0), records, Ok(()))
    } else if records[tx.tx_id].account_id != tx.account_id {
        (
            accounts.insert(tx.account_id, a0),
            records,
            Err(Error::TransactionError(TransactionFault::OwnerMismatch)),
        )
    } else {
        match a0.spec_chargeback(records[tx.tx_id].amount@) {
            Ok(a2) => (accounts.insert(tx.account_id, a2), records, Ok(())),
            Err(e) => (accounts.insert(tx.account_id, a0), records, Err(e)),
        }
    }
}

/// The engine state and result after any one transaction, dispatched on its
/// type.
pub open spec fn spec_process_tx(
    accounts: Map<u16, Account>,
    records: Map<u32, TxRecord>,
    tx: Transaction,
) -> (Map<u16, Account>, Map<u32, TxRecord>, Result<(), Error>) {
    match tx.tx_type {
        TransactionType::Deposit => spec_process_deposit(accounts, records, tx),
        TransactionType::Withdrawal => spec_process_withdrawal(accounts, records, tx),
        TransactionType::Dispute => spec_process_dispute(accounts, records, tx),
        TransactionType::Resolve => spec_process_resolve(accounts, records, tx),
        TransactionType::Chargeback => spec_process_chargeback(accounts, records, tx),
    }
}

/// The payments engine: every account seen so far, and the record of every
/// successfully applied deposit and withdrawal, kept for correlating
/// disputes, resolves and chargebacks.
pub struct PaymentsEngine {
    pub accounts: HashMap<u16, Account>,
    pub transactions: HashMap<u32, TxRecord>,
}

impl PaymentsEngine {
    /// Well-formedness: every stored account satisfies its balance invariant
    /// and sits under its own id, and every stored record carries a
    /// non-negative amount.
    pub open spec fn inv(self) -> bool {
        &&& forall|id: u16| #[trigger]
            self.accounts@.contains_key(id) ==> self.accounts@[id].inv() && self.accounts@[id].id
                == id
        &&& forall|t: u32| #[trigger]
            self.transactions@.contains_key(t) ==> self.transactions@[t].amount@ >= 0
    }

    /// An engine with no accounts and no records.
    pub fn new() -> (r: PaymentsEngine)
        ensures
            r.accounts@ == Map::<u16, Account>::empty(),
            r.transactions@ == Map::<u32, TxRecord>::empty(),
            r.inv(),
    {
        PaymentsEngine { accounts: HashMap::new(), transactions: HashMap::new() }
    }

    /// Applies one transaction: the engine afterwards, and the result, are
    /// exactly what [`spec_process_tx`] gives for the engine before.
    pub fn process_tx(&mut self, tx: &Transaction) -> (r: Result<(), Error>)
        requires
            old(self).inv(),
        ensures
            final(self).inv(),
            ({
                let (accounts, records, rr) = spec_process_tx(
                    old(self).accounts@,
                    old(self).transactions@,
                    *tx,
                );
                final(self).accounts@ == accounts && final(self).transactions@ == records && r
                    == rr
            }),
    {
        match tx.tx_type {
            TransactionType::Deposit => self.process_deposit(tx),
            TransactionType::Withdrawal => self.process_withdrawal(tx),
            TransactionType::Dispute => self.process_dispute(tx),
            TransactionType::Resolve => self.process_resolve(tx),
            TransactionType::Chargeback => self.process_chargeback(tx),
        }
    }

    /// The stored account for `id`, or a fresh one when none is stored.
    fn fetch_or_create(&self, id: u16) -> (r: Account)
        ensures
            r == spec_fetched(self.accounts@, id),
    {
        match self.accounts.get(&id) {
            Some(a) => *a,
            None => Account::new(id),
        }
    }

    fn process_deposit(&mut self, tx: &Transaction) -> (r: Result<(), Error>)
        requires
            old(self).inv(),
        ensures
            final(self).inv(),
            ({
                let (accounts, records, rr) = spec_process_deposit(
                    old(self).accounts@,
                    old(self).transactions@,
                    *tx,
                );
                final(self).accounts@ == accounts && final(self).transactions@ == records && r
                    == rr
            }),
    {
        let mut account = self.fetch_or_create(tx.account_id);
        let tx_info = match TxRecord::try_from(tx) {
            Ok(rec) => rec,
            Err(e) => {
                self.accounts.insert(tx.account_id, account);
                return Err(e);
            },
        };

        match account.deposit(tx_info.amount) {
            Ok(_) => {
                self.accounts.insert(tx.account_id, account);
                self.transactions.insert(tx.tx_id, tx_info);
                Ok(())
            },
            Err(e) => {
                self.accounts.insert(tx.account_id, account);
                Err(e)
            },
        }
    }

    fn process_withdrawal(&mut self, tx: &Transaction) -> (r: Result<(), Error>)
        requires
            old(self).inv(),
        ensures
            final(self).inv(),
            ({
                let (accounts, records, rr) = spec_process_withdrawal(
                    old(self).accounts@,
                    old(self).transactions@,
                    *tx,
                );
                final(self).accounts@ == accounts && final(self).transactions@ == records && r
                    == rr
            }),
    {
        let mut account = self.fetch_or_create(tx.account_id);
        let tx_info = match TxRecord::try_from(tx) {
            Ok(rec) => rec,
            Err(e) => {
                self.accounts.insert(tx.account_id, account);
                return Err(e);
            },
        };

        match account.withdrawal(tx_info.amount) {
            Ok(_) => {
                self.accounts.insert(tx.account_id, account);
                self.transactions.insert(tx.tx_id, tx_info);
                Ok(())
            },
            Err(e) => {
                self.accounts.insert(tx.account_id, account);
                Err(e)
            },
        }
    }

    fn process_dispute(&mut self, tx: &Transaction) -> (r: Result<(), Error>)
        requires
            old(self).inv(),
        ensures
            final(self).inv(),
            ({
                let (accounts, records, rr) = spec_process_dispute(
                    old(self).accounts@,
                    old(self).transactions@,
                    *tx,
                );
                final(self).accounts@ == accounts && final(self).transactions@ == records && r
                    == rr
            }),
    {
        let mut account = self.fetch_or_create(tx.account_id);
        let r = match self.transactions.get(&tx.tx_id) {
            Some(tx_info) => {
                // ensure the cited transaction belongs to the same account
                match account.validate_tx_account_id(tx_info.account_id) {
                    Ok(_) => account.dispute(tx_info.amount),
                    Err(e) => Err(e),
                }
            },
            // cited transaction not found: ignore
            None => Ok(()),
        };
        self.accounts.insert(tx.account_id, account);
        r
    }

    fn process_resolve(&mut self, tx: &Transaction) -> (r: Result<(), Error>)
        requires
            old(self).inv(),
        ensures
            final(self).inv(),
            ({
                let (accounts, records, rr) = spec_process_resolve(
                    old(self).accounts@,
                    old(self).transactions@,
                    *tx,
                );
                final(self).accounts@ == accounts && final(self).transactions@ == records && r
                    == rr
            }),
    {
        let mut account = self.fetch_or_create(tx.account_id);
        let r = match self.transactions.get(&tx.tx_id) {
            Some(tx_info) => {
                // ensure the cited transaction belongs to the same account
                match account.validate_tx_account_id(tx_info.account_id) {
                    Ok(_) => account.resolve(tx_info.amount),
                    Err(e) => Err(e),
                }
            },
            // cited transaction not found: ignore
            None => Ok(()),
        };
        self.accounts.insert(tx.account_id, account);
        r
    }

    fn process_chargeback(&mut self, tx: &Transaction) -> (r: Result<(), Error>)
        requires
            old(self).inv(),
        ensures
            final(self).inv(),
            ({
                let (accounts, records, rr) = spec_process_chargeback(
                    old(self).accounts@,
                    old(self).transactions@,
                    *tx,
                );
                final(self).accounts@ == accounts && final(self).transactions@ == records && r
                    == rr
            }),
    {
        let mut account = self.fetch_or_create(tx.account_id);
        let r = match self.transactions.get(&tx.tx_id) {
            Some(tx_info) => {
                // ensure the cited transaction belongs to the same account
                match account.validate_tx_account_id(tx_info.account_id) {
                    Ok(_) => account.chargeback(tx_info.amount),
                    Err(e) => Err(e),
                }
            },
            // cited transaction not found: ignore
            None => Ok(()),
        };
        self.accounts.insert(tx.account_id, account);
        r
    }
}

/// A transaction addressed to a locked account changes nothing at all: the
/// accounts and the records are left exactly as they were. Unless the
/// transaction is a reference to an unrecorded transaction id (which is
/// ignored as always), it is refused with a failure.
pub proof fn lemma_locked_account_never_changes(
    accounts: Map<u16, Account>,
    records: Map<u32, TxRecord>,
    tx: Transaction,
)
    requires
        accounts.contains_key(tx.account_id),
        accounts[tx.account_id].locked,
    ensures
        ({
            let (am, rm, rr) = spec_process_tx(accounts, records, tx);
            am == accounts && rm == records && ((tx.tx_type == TransactionType::Deposit
                || tx.tx_type == TransactionType::Withdrawal || records.contains_key(tx.tx_id))
                ==> rr is Err)
        }),
{
    assert(accounts.insert(tx.account_id, accounts[tx.account_id]) =~= accounts);
}

/// The lock is monotonic: an account that is locked stays locked, whatever
/// transaction the engine processes next.
pub proof fn lemma_lock_is_monotonic(
    accounts: Map<u16, Account>,
    records: Map<u32, TxRecord>,
    tx: Transaction,
    id: u16,
)
    requires
        accounts.contains_key(id),
        accounts[id].locked,
    ensures
        ({
            let (am, rm, rr) = spec_process_tx(accounts, records, tx);
            am.contains_key(id) && am[id].locked
        }),
{
    if tx.account_id == id {
        lemma_locked_account_never_changes(accounts, records, tx);
    }
}

/// Re-applying a resolve or chargeback that cites a record of an already
/// locked account is a refused no-op, never a silent double effect: the
/// engine reports the `Locked` fault and neither the accounts nor the
/// records change.
pub proof fn lemma_locked_reference_is_noop_error(
    accounts: Map<u16, Account>,
    records: Map<u32, TxRecord>,
    tx: Transaction,
)
    requires
        tx.tx_type == TransactionType::Resolve || tx.tx_type == TransactionType::Chargeback,
        records.contains_key(tx.tx_id),
        records[tx.tx_id].account_id == tx.account_id,
        accounts.contains_key(tx.account_id),
        accounts[tx.account_id].locked,
    ensures
        ({
            let (am, rm, rr) = spec_process_tx(accounts, records, tx);
            am == accounts && rm == records && rr == Err::<(), Error>(
                Error::AccountError(AccountFault::Locked),
            )
        }),
{
    assert(accounts.insert(tx.account_id, accounts[tx.account_id]) =~= accounts);
}

/// A dispute, resolve or chargeback that cites a transaction id the engine
/// never recorded is silently ignored: it reports success and changes no
/// account and no record.
pub proof fn lemma_unknown_reference_is_ignored(
    accounts: Map<u16, Account>,
    records: Map<u32, TxRecord>,
    tx: Transaction,
)
    requires
        tx.tx_type == TransactionType::Dispute || tx.tx_type == TransactionType::Resolve
            || tx.tx_type == TransactionType::Chargeback,
        !records.contains_key(tx.tx_id),
        accounts.contains_key(tx.account_id),
    ensures
        ({
            let (am, rm, rr) = spec_process_tx(accounts, records, tx);
            am == accounts && rm == records && rr == Ok::<(), Error>(())
        }),
{
    assert(accounts.insert(tx.account_id, accounts[tx.account_id]) =~= accounts);
}

/// A dispute, resolve or chargeback addressed to one account but citing a
/// record that belongs to another fails with an `OwnerMismatch` fault and
/// mutates neither account: the whole account store and the record store are
/// left exactly as they were.
pub proof fn lemma_owner_mismatch_mutates_nothing(
    accounts: Map<u16, Account>,
    records: Map<u32, TxRecord>,
    tx: Transaction,
)
    requires
        tx.tx_type == TransactionType::Dispute || tx.tx_type == TransactionType::Resolve
            || tx.tx_type == TransactionType::Chargeback,
        records.contains_key(tx.tx_id),
        records[tx.tx_id].account_id != tx.account_id,
        accounts.contains_key(tx.account_id),
    ensures
        ({
            let (am, rm, rr) = spec_process_tx(accounts, records, tx);
            am == accounts && rm == records && rr == Err::<(), Error>(
                Error::TransactionError(TransactionFault::OwnerMismatch),
            )
        }),
{
    assert(accounts.insert(tx.account_id, accounts[tx.account_id]) =~= accounts);
}

} // verus!
