use vstd::prelude::*;

use crate::amount::Amount;
use crate::error::{AccountFault, Error, TransactionFault};

verus! {

/// One client account: its identifier, its balances and its lock flag.
///
/// A well-formed account (see [`Account::inv`]) keeps `total` equal to
/// `available + held` with both parts non-negative. Once `locked` is set by a
/// chargeback, every further operation is refused without touching the
/// balances.
#[derive(Clone, Copy, PartialEq, Eq, Structural, Debug)]
pub struct Account {
    pub id: u16,
    pub available: Amount,
    pub held: Amount,
    pub total: Amount,
    pub locked: bool,
}

/// A freshly created account: all balances zero, unlocked.
pub open spec fn spec_new_account(id: u16) -> Account {
    Account {
        id,
        available: Amount { minor: 0 },
        held: Amount { minor: 0 },
        total: Amount { minor: 0 },
        locked: false,
    }
}

impl Account {
    /// The balance invariant: the total is exactly the available part plus
    /// the held part, and neither part is negative.
    pub open spec fn inv(self) -> bool {
        &&& self.total@ == self.available@ + self.held@
        &&& self.available@ >= 0
        &&& self.held@ >= 0
    }

    /// Outcome of depositing `amt`: `available` and `total` both grow by
    /// `amt`, unless the account is locked, the amount is negative, or a sum
    /// would leave the representable range.
    pub open spec fn spec_deposit(self, amt: int) -> Result<Account, Error> {
        if self.locked {
            Err(Error::AccountError(AccountFault::Locked))
        } else if amt < 0 {
            Err(Error::TransactionError(TransactionFault::NegativeAmount))
        } else if self.available@ + amt > i64::MAX || self.available@ + amt < i64::MIN {
            Err(Error::TransactionError(TransactionFault::Overflow))
        } else if self.total@ + amt > i64::MAX || self.total@ + amt < i64::MIN {
            Err(Error::TransactionError(TransactionFault::Overflow))
        } else {
            Ok(Account {
                id: self.id,
                available: Amount { minor: (self.available@ + amt) as i64 },
                held: self.held,
                total: Amount { minor: (self.total@ + amt) as i64 },
                locked: self.locked,
            })
        }
    }

    /// Outcome of withdrawing `amt`: `available` and `total` both shrink by
    /// `amt`, unless the account is locked, the amount is negative, the
    /// account lacks the funds, or a difference would leave the representable
    /// range.
    pub open spec fn spec_withdrawal(self, amt: int) -> Result<Account, Error> {
        if self.locked {
            Err(Error::AccountError(AccountFault::Locked))
        } else if amt < 0 {
            Err(Error::TransactionError(TransactionFault::NegativeAmount))
        } else if self.available@ < amt || self.total@ < amt {
            Err(Error::AccountError(AccountFault::InsufficientFunds))
        } else if self.available@ - amt > i64::MAX || self.available@ - amt < i64::MIN {
            Err(Error::TransactionError(TransactionFault::Underflow))
        } else if self.total@ - amt > i64::MAX || self.total@ - amt < i64::MIN {
            Err(Error::TransactionError(TransactionFault::Underflow))
        } else {
            Ok(Account {
                id: self.id,
                available: Amount { minor: (self.available@ - amt) as i64 },
                held: self.held,
                total: Amount { minor: (self.total@ - amt) as i64 },
                locked: self.locked,
            })
        }
    }

    /// Outcome of disputing `amt`: the amount moves from `available` to
    /// `held`, `total` unchanged, unless the account is locked, the available
    /// funds do not cover it, or the arithmetic leaves the representable
    /// range. The sign is not re-checked: dispute amounts come from stored
    /// records that were validated when they were created.
    pub open spec fn spec_dispute(self, amt: int) -> Result<Account, Error> {
        if self.locked {
            Err(Error::AccountError(AccountFault::Locked))
        } else if self.available@ < amt {
            Err(Error::AccountError(AccountFault::InsufficientFunds))
        } else if self.available@ - amt > i64::MAX || self.available@ - amt < i64::MIN {
            Err(Error::TransactionError(TransactionFault::Underflow))
        } else if self.held@ + amt > i64::MAX || self.held@ + amt < i64::MIN {
            Err(Error::TransactionError(TransactionFault::Overflow))
        } else {
            Ok(Account {
                id: self.id,
                available: Amount { minor: (self.available@ - amt) as i64 },
                held: Amount { minor: (self.held@ + amt) as i64 },
                total: self.total,
                locked: self.locked,
            })
        }
    }

    /// Outcome of resolving `amt`: the amount moves back from `held` to
    /// `available`, `total` unchanged, unless the account is locked, the held
    /// funds do not cover it, or the arithmetic leaves the representable
    /// range.
    pub open spec fn spec_resolve(self, amt: int) -> Result<Account, Error> {
        if self.locked {
            Err(Error::AccountError(AccountFault::Locked))
        } else if self.held@ < amt {
            Err(Error::AccountError(AccountFault::InsufficientFunds))
        } else if self.held@ - amt > i64::MAX || self.held@ - amt < i64::MIN {
            Err(Error::TransactionError(TransactionFault::Underflow))
        } else if self.available@ + amt > i64::MAX || self.available@ + amt < i64::MIN {
            Err(Error::TransactionError(TransactionFault::Overflow))
        } else {
            Ok(Account {
                id: self.id,
                available: Amount { minor: (self.available@ + amt) as i64 },
                held: Amount { minor: (self.held@ - amt) as i64 },
                total: self.total,
                locked: self.locked,
            })
        }
    }

    /// Outcome of a chargeback of `amt`: the amount leaves both `held` and
    /// `total` and the account locks, unless the account is already locked,
    /// the held or total funds do not cover it, or a difference would leave
    /// the representable range.
    pub open spec fn spec_chargeback(self, amt: int) -> Result<Account, Error> {
        if self.locked {
            Err(Error::AccountError(AccountFault::Locked))
        } else if self.held@ < amt || self.total@ < amt {
            Err(Error::AccountError(AccountFault::InsufficientFunds))
        } else if self.held@ - amt > i64::MAX || self.held@ - amt < i64::MIN {
            Err(Error::TransactionError(TransactionFault::Underflow))
        } else if self.total@ - amt > i64::MAX || self.total@ - amt < i64::MIN {
            Err(Error::TransactionError(TransactionFault::Underflow))
        } else {
            Ok(Account {
                id: self.id,
                available: self.available,
                held: Amount { minor: (self.held@ - amt) as i64 },
                total: Amount { minor: (self.total@ - amt) as i64 },
                locked: true,
            })
        }
    }

    /// A fresh, unlocked account with all balances at zero.
    pub fn new(id: u16) -> (r: Account)
        ensures
            r == spec_new_account(id),
            r.inv(),
    {
        Account {
            id,
            available: Amount::zero(),
            held: Amount::zero(),
            total: Amount::zero(),
            locked: false,
        }
    }

    /// Adds `amount` to the available and total funds.
    pub fn deposit(&mut self, amount: Amount) -> (r: Result<(), Error>)
        ensures
            ({
                let o = old(self).spec_deposit(amount@);
                match o {
                    Ok(a) => r == Ok::<(), Error>(()) && *final(self) == a,
                    Err(e) => r == Err::<(), Error>(e) && *final(self) == *old(self),
                }
            }),
            old(self).inv() ==> final(self).inv(),
            final(self).id == old(self).id,
            final(self).locked == old(self).locked,
    {
        self.check_lock()?;
        self.validate_deposit_amount(amount)?;

        let new_available = match self.available.checked_add(amount) {
            Some(v) => v,
            None => {
                return Err(Error::TransactionError(TransactionFault::Overflow));
            },
        };
        let new_total = match self.total.checked_add(amount) {
            Some(v) => v,
            None => {
                return Err(Error::TransactionError(TransactionFault::Overflow));
            },
        };

        self.available = new_available;
        self.total = new_total;

        Ok(())
    }

    /// Removes `amount` from the available and total funds.
    pub fn withdrawal(&mut self, amount: Amount) -> (r: Result<(), Error>)
        ensures
            ({
                let o = old(self).spec_withdrawal(amount@);
                match o {
                    Ok(a) => r == Ok::<(), Error>(()) && *final(self) == a,
                    Err(e) => r == Err::<(), Error>(e) && *final(self) == *old(self),
                }
            }),
            old(self).inv() ==> final(self).inv(),
            final(self).id == old(self).id,
            final(self).locked == old(self).locked,
    {
        self.check_lock()?;
        self.validate_withdrawal_amount(amount)?;

        // the sufficiency checks above keep both differences in range, so
        // these error paths are provably dead; they stay as a guard
        let new_available = match self.available.checked_sub(amount) {
            Some(v) => v,
            None => {
                return Err(Error::TransactionError(TransactionFault::Underflow));
            },
        };
        let new_total = match self.total.checked_sub(amount) {
            Some(v) => v,
            None => {
                return Err(Error::TransactionError(TransactionFault::Underflow));
            },
        };

        self.available = new_available;
        self.total = new_total;

        Ok(())
    }

    /// Moves `amount` from the available funds to the held funds.
    pub fn dispute(&mut self, amount: Amount) -> (r: Result<(), Error>)
        ensures
            ({
                let o = old(self).spec_dispute(amount@);
                match o {
                    Ok(a) => r == Ok::<(), Error>(()) && *final(self) == a,
                    Err(e) => r == Err::<(), Error>(e) && *final(self) == *old(self),
                }
            }),
            old(self).inv() && amount@ >= 0 ==> final(self).inv(),
            final(self).id == old(self).id,
            final(self).locked == old(self).locked,
    {
        self.check_lock()?;
        self.validate_dispute_amount(amount)?;

        let new_available = match self.available.checked_sub(amount) {
            Some(v) => v,
            None => {
                return Err(Error::TransactionError(TransactionFault::Underflow));
            },
        };
        let new_held = match self.held.checked_add(amount) {
            Some(v) => v,
            None => {
                return Err(Error::TransactionError(TransactionFault::Overflow));
            },
        };

        self.available = new_available;
        self.held = new_held;

        Ok(())
    }

    /// Moves `amount` back from the held funds to the available funds.
    pub fn resolve(&mut self, amount: Amount) -> (r: Result<(), Error>)
        ensures
            ({
                let o = old(self).spec_resolve(amount@);
                match o {
                    Ok(a) => r == Ok::<(), Error>(()) && *final(self) == a,
                    Err(e) => r == Err::<(), Error>(e) && *final(self) == *old(self),
                }
            }),
            old(self).inv() && amount@ >= 0 ==> final(self).inv(),
            final(self).id == old(self).id,
            final(self).locked == old(self).locked,
    {
        self.check_lock()?;
        self.validate_resolve_amount(amount)?;

        let new_held = match self.held.checked_sub(amount) {
            Some(v) => v,
            None => {
                return Err(Error::TransactionError(TransactionFault::Underflow));
            },
        };
        let new_available = match self.available.checked_add(amount) {
            Some(v) => v,
            None => {
                return Err(Error::TransactionError(TransactionFault::Overflow));
            },
        };

        self.held = new_held;
        self.available = new_available;

        Ok(())
    }

    /// Removes `amount` from the held and total funds and locks the account.
    pub fn chargeback(&mut self, amount: Amount) -> (r: Result<(), Error>)
        ensures
            ({
                let o = old(self).spec_chargeback(amount@);
                match o {
                    Ok(a) => r == Ok::<(), Error>(()) && *final(self) == a,
                    Err(e) => r == Err::<(), Error>(e) && *final(self) == *old(self),
                }
            }),
            old(self).inv() && amount@ >= 0 ==> final(self).inv(),
            final(self).id == old(self).id,
            old(self).locked ==> final(self).locked,
    {
        self.check_lock()?;
        self.validate_chargeback_amount(amount)?;

        let new_held = match self.held.checked_sub(amount) {
            Some(v) => v,
            None => {
                return Err(Error::TransactionError(TransactionFault::Underflow));
            },
        };
        let new_total = match self.total.checked_sub(amount) {
            Some(v) => v,
            None => {
                return Err(Error::TransactionError(TransactionFault::Underflow));
            },
        };

        self.held = new_held;
        self.total = new_total;
        // a successful chargeback freezes the account for good
        self.locked = true;

        Ok(())
    }

    /// Fails with a `Locked` fault when the account is locked; the first
    /// gate of every mutating operation.
    pub fn check_lock(&self) -> (r: Result<(), Error>)
        ensures
            (match r {
                Ok(_) => !self.locked,
                Err(e) => self.locked && e == Error::AccountError(AccountFault::Locked),
            }),
    {
        if self.locked {
            return Err(Error::AccountError(AccountFault::Locked));
        }

        Ok(())
    }

    fn validate_deposit_amount(&self, amount: Amount) -> (r: Result<(), Error>)
        ensures
            (match r {
                Ok(_) => amount@ >= 0,
                Err(e) => amount@ < 0 && e == Error::TransactionError(
                    TransactionFault::NegativeAmount,
                ),
            }),
    {
        Self::check_negative_amount(amount)?;

        Ok(())
    }

    fn validate_withdrawal_amount(&self, amount: Amount) -> (r: Result<(), Error>)
        ensures
            (match r {
                Ok(_) => amount@ >= 0 && self.available@ >= amount@ && self.total@ >= amount@,
                Err(e) => if amount@ < 0 {
                    e == Error::TransactionError(TransactionFault::NegativeAmount)
                } else {
                    (self.available@ < amount@ || self.total@ < amount@) && e
                        == Error::AccountError(AccountFault::InsufficientFunds)
                },
            }),
    {
        Self::check_negative_amount(amount)?;

        // ensure the account has enough available/total funds
        if self.available.lt(amount) || self.total.lt(amount) {
            return Err(Error::AccountError(AccountFault::InsufficientFunds));
        }

        Ok(())
    }

    fn validate_dispute_amount(&self, amount: Amount) -> (r: Result<(), Error>)
        ensures
            (match r {
                Ok(_) => self.available@ >= amount@,
                Err(e) => self.available@ < amount@ && e == Error::AccountError(
                    AccountFault::InsufficientFunds,
                ),
            }),
    {
        // ensure the account has enough available funds
        if self.available.lt(amount) {
            return Err(Error::AccountError(AccountFault::InsufficientFunds));
        }

        Ok(())
    }

    fn validate_resolve_amount(&self, amount: Amount) -> (r: Result<(), Error>)
        ensures
            (match r {
                Ok(_) => self.held@ >= amount@,
                Err(e) => self.held@ < amount@ && e == Error::AccountError(
                    AccountFault::InsufficientFunds,
                ),
            }),
    {
        // ensure the account has enough held funds
        if self.held.lt(amount) {
            return Err(Error::AccountError(AccountFault::InsufficientFunds));
        }

        Ok(())
    }

    fn validate_chargeback_amount(&self, amount: Amount) -> (r: Result<(), Error>)
        ensures
            (match r {
                Ok(_) => self.held@ >= amount@ && self.total@ >= amount@,
                Err(e) => (self.held@ < amount@ || self.total@ < amount@) && e
                    == Error::AccountError(AccountFault::InsufficientFunds),
            }),
    {
        // ensure the account has enough held/total funds
        if self.held.lt(amount) || self.total.lt(amount) {
            return Err(Error::AccountError(AccountFault::InsufficientFunds));
        }

        Ok(())
    }

    /// Fails with an `OwnerMismatch` fault when a dispute, resolve or
    /// chargeback cites a transaction that belongs to another account.
    pub fn validate_tx_account_id(&self, tx_account_id: u16) -> (r: Result<(), Error>)
        ensures
            (match r {
                Ok(_) => self.id == tx_account_id,
                Err(e) => self.id != tx_account_id && e == Error::TransactionError(
                    TransactionFault::OwnerMismatch,
                ),
            }),
    {
        if self.id != tx_account_id {
            return Err(Error::TransactionError(TransactionFault::OwnerMismatch));
        }

        Ok(())
    }

    /// Fails with a `NegativeAmount` fault when a deposit or withdrawal
    /// amount is below zero.
    pub fn check_negative_amount(amount: Amount) -> (r: Result<(), Error>)
        ensures
            (match r {
                Ok(_) => amount@ >= 0,
                Err(e) => amount@ < 0 && e == Error::TransactionError(
                    TransactionFault::NegativeAmount,
                ),
            }),
    {
        if amount.is_negative() {
            return Err(Error::TransactionError(TransactionFault::NegativeAmount));
        }

        Ok(())
    }
}

/// Every operation that succeeds on a well-formed account leaves a
/// well-formed account: the total stays the sum of the non-negative
/// available and held parts. Dispute, resolve and chargeback rely on a
/// non-negative amount, as every stored record guarantees.
pub proof fn lemma_operations_preserve_invariant(a: Account, amt: int)
    requires
        a.inv(),
    ensures
        (a.spec_deposit(amt) matches Ok(b) ==> b.inv()),
        (a.spec_withdrawal(amt) matches Ok(b) ==> b.inv()),
        amt >= 0 ==> (a.spec_dispute(amt) matches Ok(b) ==> b.inv()),
        amt >= 0 ==> (a.spec_resolve(amt) matches Ok(b) ==> b.inv()),
        amt >= 0 ==> (a.spec_chargeback(amt) matches Ok(b) ==> b.inv()),
{
}

/// A locked account is frozen: every operation, whatever its amount, is
/// refused with a `Locked` fault, and (by the operations' contracts) the
/// account is left exactly as it was.
pub proof fn lemma_locked_account_is_frozen(a: Account, amt: int)
    requires
        a.locked,
    ensures
        a.spec_deposit(amt) == Err::<Account, Error>(Error::AccountError(AccountFault::Locked)),
        a.spec_withdrawal(amt) == Err::<Account, Error>(Error::AccountError(AccountFault::Locked)),
        a.spec_dispute(amt) == Err::<Account, Error>(Error::AccountError(AccountFault::Locked)),
        a.spec_resolve(amt) == Err::<Account, Error>(Error::AccountError(AccountFault::Locked)),
        a.spec_chargeback(amt) == Err::<Account, Error>(Error::AccountError(AccountFault::Locked)),
{
}

/// Depositing an amount and then withdrawing the same amount restores the
/// account exactly: available, held, total and the lock flag are all back at
/// their earlier values.
pub proof fn lemma_deposit_withdrawal_round_trip(a: Account, amt: int)
    requires
        a.inv(),
        !a.locked,
        0 <= amt,
        a.available@ + amt <= i64::MAX,
        a.total@ + amt <= i64::MAX,
    ensures
        (a.spec_deposit(amt) matches Ok(b) && (b.spec_withdrawal(amt) matches Ok(c) && c == a)),
{
}

/// Withdrawing exactly the available funds succeeds and leaves zero
/// available, while withdrawing any more is refused for insufficient funds.
pub proof fn lemma_withdrawal_boundary(a: Account, amt: int)
    requires
        a.inv(),
        !a.locked,
    ensures
        amt == a.available@ ==> (a.spec_withdrawal(amt) matches Ok(b) && b.available@ == 0
            && b.total@ == a.held@),
        amt > a.available@ ==> a.spec_withdrawal(amt) == Err::<Account, Error>(
            Error::AccountError(AccountFault::InsufficientFunds),
        ),
{
}

} // verus!
