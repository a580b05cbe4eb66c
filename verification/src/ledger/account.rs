use vstd::prelude::*;

verus! {

/// One client's balances: spendable funds, funds frozen pending dispute
/// resolution, their sum, and whether a chargeback has locked the account.
#[derive(Clone, Copy, Debug)]
pub struct Account {
    pub id: u16,
    pub available: i64,
    pub held: i64,
    pub total: i64,
    pub locked: bool,
}

/// Why a withdrawal was refused.
#[derive(Clone, Copy, Debug, PartialEq, Eq, Structural)]
pub enum WithdrawError {
    AccountLockedError,
    InsufficientBalanceError,
}

impl Account {
    /// A fresh account for `id`: zero balances, not locked.
    pub open spec fn new_spec(id: u16) -> Account {
        Account { id, available: 0, held: 0, total: 0, locked: false }
    }

    /// The accounting identity: the total is the available funds plus the held funds.
    pub open spec fn balanced(self) -> bool {
        self.total == self.available + self.held
    }

    /// Both balance updates of a deposit of `amount` stay within `i64`.
    pub open spec fn deposit_fits(self, amount: i64) -> bool {
        &&& i64::MIN <= self.total + amount <= i64::MAX
        &&& i64::MIN <= self.available + amount <= i64::MAX
    }

    /// The account after a deposit of `amount`.
    pub open spec fn deposit_spec(self, amount: i64) -> Account {
        Account {
            total: (self.total + amount) as i64,
            available: (self.available + amount) as i64,
            ..self
        }
    }

    /// Whether a withdrawal of `amount` is accepted: the account is not
    /// locked and the available funds cover the amount.
    pub open spec fn can_withdraw(self, amount: i64) -> bool {
        !self.locked && self.available >= amount
    }

    /// Both balance updates of an accepted withdrawal of `amount` stay within `i64`.
    pub open spec fn withdraw_fits(self, amount: i64) -> bool {
        self.can_withdraw(amount) ==> {
            &&& i64::MIN <= self.total - amount <= i64::MAX
            &&& i64::MIN <= self.available - amount <= i64::MAX
        }
    }

    /// The account after an accepted withdrawal of `amount`.
    pub open spec fn withdraw_spec(self, amount: i64) -> Account {
        Account {
            total: (self.total - amount) as i64,
            available: (self.available - amount) as i64,
            ..self
        }
    }

    /// What a withdrawal of `amount` does: the updated account, or the error
    /// it is refused with. A locked account refuses every withdrawal,
    /// regardless of balance; an unlocked one refuses an amount that exceeds
    /// the available funds.
    pub open spec fn withdraw_outcome(self, amount: i64) -> Result<Account, WithdrawError> {
        if self.locked {
            Err(WithdrawError::AccountLockedError)
        } else if self.available < amount {
            Err(WithdrawError::InsufficientBalanceError)
        } else {
            Ok(self.withdraw_spec(amount))
        }
    }

    /// Both balance updates of a hold of `amount` stay within `i64`.
    pub open spec fn hold_fits(self, amount: i64) -> bool {
        &&& i64::MIN <= self.held + amount <= i64::MAX
        &&& i64::MIN <= self.available - amount <= i64::MAX
    }

    /// The account after `amount` is moved from available to held.
    pub open spec fn hold_spec(self, amount: i64) -> Account {
        Account {
            held: (self.held + amount) as i64,
            available: (self.available - amount) as i64,
            ..self
        }
    }

    /// Both balance updates of a release of `amount` stay within `i64`.
    pub open spec fn release_fits(self, amount: i64) -> bool {
        &&& i64::MIN <= self.held - amount <= i64::MAX
        &&& i64::MIN <= self.available + amount <= i64::MAX
    }

    /// The account after `amount` is moved back from held to available.
    pub open spec fn release_spec(self, amount: i64) -> Account {
        Account {
            held: (self.held - amount) as i64,
            available: (self.available + amount) as i64,
            ..self
        }
    }

    /// Both balance updates of a chargeback of `amount` stay within `i64`.
    pub open spec fn chargeback_fits(self, amount: i64) -> bool {
        &&& i64::MIN <= self.held - amount <= i64::MAX
        &&& i64::MIN <= self.total - amount <= i64::MAX
    }

    /// The account after a chargeback of `amount`: the held funds and the
    /// total both shrink by it, and the account is locked for good.
    pub open spec fn chargeback_spec(self, amount: i64) -> Account {
        Account {
            held: (self.held - amount) as i64,
            total: (self.total - amount) as i64,
            locked: true,
            ..self
        }
    }

    /// A fresh account for `id`: zero balances, not locked.
    pub fn new(id: u16) -> (r: Account)
        ensures
            r == Account::new_spec(id),
    {
        Account { id, available: 0, held: 0, total: 0, locked: false }
    }

    /// Credit `amount`: the available funds and the total both grow by it.
    /// A deposit always succeeds, locked or not.
    pub fn deposit(&mut self, amount: i64)
        requires
            old(self).deposit_fits(amount),
        ensures
            *final(self) == old(self).deposit_spec(amount),
            old(self).balanced() ==> final(self).balanced(),
    {
        self.total = self.total + amount;
        self.available = self.available + amount;
    }

    /// Debit `amount` if the account is not locked and the available funds
    /// cover it; otherwise refuse and leave the account unchanged.
    pub fn withdraw(&mut self, amount: i64) -> (r: Result<(), WithdrawError>)
        requires
            old(self).withdraw_fits(amount),
        ensures
            match old(self).withdraw_outcome(amount) {
                Ok(updated) => r == Ok::<(), WithdrawError>(()) && *final(self) == updated,
                Err(e) => r == Err::<(), WithdrawError>(e) && *final(self) == *old(self),
            },
            old(self).locked ==> r == Err::<(), WithdrawError>(WithdrawError::AccountLockedError),
            old(self).balanced() ==> final(self).balanced(),
    {
        if self.locked {
            return Err(WithdrawError::AccountLockedError);
        }
        if self.available < amount {
            return Err(WithdrawError::InsufficientBalanceError);
        }
        self.total = self.total - amount;
        self.available = self.available - amount;
        Ok(())
    }

    /// Freeze `amount` pending a dispute: held grows by it, available shrinks
    /// by it, the total is untouched. There is no balance check — available
    /// may go negative by design, so that a withdrawal can be disputed.
    pub fn hold(&mut self, amount: i64)
        requires
            old(self).hold_fits(amount),
        ensures
            *final(self) == old(self).hold_spec(amount),
            old(self).balanced() ==> final(self).balanced(),
    {
        self.held = self.held + amount;
        self.available = self.available - amount;
    }

    /// Undo a hold of `amount`: held shrinks by it, available grows by it,
    /// the total is untouched.
    pub fn release(&mut self, amount: i64)
        requires
            old(self).release_fits(amount),
        ensures
            *final(self) == old(self).release_spec(amount),
            old(self).balanced() ==> final(self).balanced(),
    {
        self.held = self.held - amount;
        self.available = self.available + amount;
    }

    /// Withdraw a disputed `amount` for good: held and total both shrink by
    /// it, and the account is locked permanently — no unlock exists.
    pub fn chargeback(&mut self, amount: i64)
        requires
            old(self).chargeback_fits(amount),
        ensures
            *final(self) == old(self).chargeback_spec(amount),
            old(self).balanced() ==> final(self).balanced(),
    {
        self.held = self.held - amount;
        self.total = self.total - amount;
        self.locked = true;
    }
}

} // verus!
