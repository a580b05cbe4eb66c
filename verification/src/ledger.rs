use vstd::prelude::*;

pub mod account;
pub mod transaction;

use account::Account;
use account::WithdrawError;
use std::collections::HashMap;
use std::collections::HashSet;
use transaction::Transaction;
use transaction::TransactionType;

verus! {

broadcast use vstd::std_specs::hash::group_hash_axioms;

/// The locally reported result of applying one record. A refused record is
/// skipped: the ledger continues with the next one.
#[derive(Clone, Copy, Debug, PartialEq, Eq, Structural)]
pub enum Outcome {
    /// The record was applied and the ledger state updated.
    Applied,
    /// A withdrawal was refused; the account is left as it was.
    WithdrawalFailed(WithdrawError),
    /// A dispute, resolve or chargeback named a transaction id that is not
    /// on record; nothing changed.
    TransactionNotFound,
    /// A resolve or chargeback named a transaction id that is not currently
    /// disputed; nothing changed.
    NotDisputed,
    /// Applying the record would take a balance outside the `i64` range;
    /// nothing changed.
    AmountOutOfRange,
}

/// What one record does to the ledger: the state after it and the outcome
/// reported for it.
#[verifier::ext_equal]
pub struct Step {
    pub next: LedgerView,
    pub outcome: Outcome,
}

/// The ledger: one account per client that has transacted, the history of
/// applied deposits and withdrawals keyed by transaction id, and the set of
/// transaction ids currently under dispute.
pub struct Ledger {
    pub accounts: HashMap<u16, Account>,
    pub transactions: HashMap<u32, Transaction>,
    pub disputed_transactions: HashSet<u32>,
}

/// The mathematical content of a [`Ledger`].
#[verifier::ext_equal]
pub struct LedgerView {
    pub accounts: Map<u16, Account>,
    pub transactions: Map<u32, Transaction>,
    pub disputed: Set<u32>,
}

impl View for Ledger {
    type V = LedgerView;

    open spec fn view(&self) -> LedgerView {
        LedgerView {
            accounts: self.accounts@,
            transactions: self.transactions@,
            disputed: self.disputed_transactions@,
        }
    }
}

impl LedgerView {
    /// The empty ledger: no accounts, no history, no disputes.
    pub open spec fn empty() -> LedgerView {
        LedgerView {
            accounts: Map::empty(),
            transactions: Map::empty(),
            disputed: Set::empty(),
        }
    }

    /// Well-formedness, kept by every operation: an account stored under a
    /// client id belongs to that client and is balanced; a disputed
    /// transaction id is on record; and what is on record under an id is a
    /// deposit or withdrawal bearing that id.
    pub open spec fn wf(self) -> bool {
        &&& forall|c: u16|
            self.accounts.contains_key(c) ==> (#[trigger] self.accounts[c]).id == c
                && self.accounts[c].balanced()
        &&& forall|x: u32| #[trigger] self.disputed.contains(x) ==> self.transactions.contains_key(x)
        &&& forall|x: u32|
            self.transactions.contains_key(x) ==> (#[trigger] self.transactions[x]).id == x && (
            self.transactions[x].transaction_type is Deposit
                || self.transactions[x].transaction_type is Withdrawal)
    }

    /// The account held for client `c`, or a fresh one if none: accounts are
    /// created lazily on the first transaction that touches them.
    pub open spec fn account_or_new(self, c: u16) -> Account {
        if self.accounts.contains_key(c) {
            self.accounts[c]
        } else {
            Account::new_spec(c)
        }
    }

    /// A deposit credits the (possibly fresh) account of the record's client
    /// and goes on record under its transaction id, so that it can later be
    /// disputed. A deposit whose arithmetic does not fit is skipped.
    pub open spec fn deposit_step(self, t: Transaction) -> Step {
        let acct = self.account_or_new(t.client_id);
        let amount = t.amount_or_zero();
        if acct.deposit_fits(amount) {
            Step {
                next: LedgerView {
                    accounts: self.accounts.insert(t.client_id, acct.deposit_spec(amount)),
                    transactions: self.transactions.insert(t.id, t),
                    ..self
                },
                outcome: Outcome::Applied,
            }
        } else {
            Step { next: self, outcome: Outcome::AmountOutOfRange }
        }
    }

    /// A withdrawal debits the account of the record's client if the account
    /// accepts it, and then goes on record; a refused withdrawal leaves the
    /// account as it was (a fresh one is still created) and is not recorded,
    /// which makes it non-disputable.
    pub open spec fn withdrawal_step(self, t: Transaction) -> Step {
        let acct = self.account_or_new(t.client_id);
        let amount = t.amount_or_zero();
        match acct.withdraw_outcome(amount) {
            Err(e) => Step {
                next: LedgerView { accounts: self.accounts.insert(t.client_id, acct), ..self },
                outcome: Outcome::WithdrawalFailed(e),
            },
            Ok(updated) => if acct.withdraw_fits(amount) {
                Step {
                    next: LedgerView {
                        accounts: self.accounts.insert(t.client_id, updated),
                        transactions: self.transactions.insert(t.id, t),
                        ..self
                    },
                    outcome: Outcome::Applied,
                }
            } else {
                Step { next: self, outcome: Outcome::AmountOutOfRange }
            },
        }
    }

    /// A dispute of a transaction on record holds that transaction's amount
    /// on the account of the incoming record's client and marks the
    /// transaction id disputed. A dispute of an unknown id changes nothing —
    /// in particular it creates no account.
    pub open spec fn dispute_step(self, t: Transaction) -> Step {
        if !self.transactions.contains_key(t.id) {
            Step { next: self, outcome: Outcome::TransactionNotFound }
        } else {
            let amount = self.transactions[t.id].amount_or_zero();
            let acct = self.account_or_new(t.client_id);
            if acct.hold_fits(amount) {
                Step {
                    next: LedgerView {
                        accounts: self.accounts.insert(t.client_id, acct.hold_spec(amount)),
                        disputed: self.disputed.insert(t.id),
                        ..self
                    },
                    outcome: Outcome::Applied,
                }
            } else {
                Step { next: self, outcome: Outcome::AmountOutOfRange }
            }
        }
    }

    /// A resolve of a disputed transaction releases its amount back to the
    /// available funds of the incoming record's client and ends the dispute;
    /// the history entry is retained. A resolve of an id not under dispute
    /// changes nothing.
    pub open spec fn resolve_step(self, t: Transaction) -> Step {
        if !self.disputed.contains(t.id) {
            Step { next: self, outcome: Outcome::NotDisputed }
        } else if !self.transactions.contains_key(t.id) {
            Step { next: self, outcome: Outcome::TransactionNotFound }
        } else {
            let amount = self.transactions[t.id].amount_or_zero();
            let acct = self.account_or_new(t.client_id);
            if acct.release_fits(amount) {
                Step {
                    next: LedgerView {
                        accounts: self.accounts.insert(t.client_id, acct.release_spec(amount)),
                        disputed: self.disputed.remove(t.id),
                        ..self
                    },
                    outcome: Outcome::Applied,
                }
            } else {
                Step { next: self, outcome: Outcome::AmountOutOfRange }
            }
        }
    }

    /// A chargeback of a disputed transaction withdraws its held amount for
    /// good, locks the account of the incoming record's client, and ends the
    /// dispute. A chargeback of an id not under dispute changes nothing.
    pub open spec fn chargeback_step(self, t: Transaction) -> Step {
        if !self.disputed.contains(t.id) {
            Step { next: self, outcome: Outcome::NotDisputed }
        } else if !self.transactions.contains_key(t.id) {
            Step { next: self, outcome: Outcome::TransactionNotFound }
        } else {
            let amount = self.transactions[t.id].amount_or_zero();
            let acct = self.account_or_new(t.client_id);
            if acct.chargeback_fits(amount) {
                Step {
                    next: LedgerView {
                        accounts: self.accounts.insert(t.client_id, acct.chargeback_spec(amount)),
                        disputed: self.disputed.remove(t.id),
                        ..self
                    },
                    outcome: Outcome::Applied,
                }
            } else {
                Step { next: self, outcome: Outcome::AmountOutOfRange }
            }
        }
    }

    /// The one-record transition of the ledger state machine.
    pub open spec fn step(self, t: Transaction) -> Step {
        match t.transaction_type {
            TransactionType::Deposit => self.deposit_step(t),
            TransactionType::Withdrawal => self.withdrawal_step(t),
            TransactionType::Dispute => self.dispute_step(t),
            TransactionType::Resolve => self.resolve_step(t),
            TransactionType::Chargeback => self.chargeback_step(t),
        }
    }

    /// The ledger state after one record.
    pub open spec fn next(self, t: Transaction) -> LedgerView {
        self.step(t).next
    }

    /// The outcome reported for one record.
    pub open spec fn outcome_of(self, t: Transaction) -> Outcome {
        self.step(t).outcome
    }

    /// The ledger state after a whole sequence of records, applied in order.
    pub open spec fn next_all(self, ts: Seq<Transaction>) -> LedgerView
        decreases ts.len(),
    {
        if ts.len() == 0 {
            self
        } else {
            self.next(ts[0]).next_all(ts.drop_first())
        }
    }
}

/// Every step of the state machine keeps the ledger well formed — in
/// particular, every account stays balanced: its total is always its
/// available funds plus its held funds.
pub proof fn lemma_step_preserves_wf(v: LedgerView, t: Transaction)
    requires
        v.wf(),
    ensures
        v.next(t).wf(),
{
}

/// A whole sequence of records keeps a well-formed ledger well formed.
pub proof fn lemma_next_all_preserves_wf(v: LedgerView, ts: Seq<Transaction>)
    requires
        v.wf(),
    ensures
        v.next_all(ts).wf(),
    decreases ts.len(),
{
    if ts.len() > 0 {
        lemma_step_preserves_wf(v, ts[0]);
        lemma_next_all_preserves_wf(v.next(ts[0]), ts.drop_first());
    }
}

/// For every account, at all times — that is, after any sequence of records
/// applied to a well-formed ledger — the total equals the available funds
/// plus the held funds.
pub proof fn lemma_accounts_always_balanced(v: LedgerView, ts: Seq<Transaction>, c: u16)
    requires
        v.wf(),
        v.next_all(ts).accounts.contains_key(c),
    ensures
        v.next_all(ts).accounts[c].total == v.next_all(ts).accounts[c].available + v.next_all(
            ts,
        ).accounts[c].held,
{
    lemma_next_all_preserves_wf(v, ts);
}

/// One step never unlocks an account: no unlock operation exists.
pub proof fn lemma_step_keeps_lock(v: LedgerView, t: Transaction, c: u16)
    requires
        v.accounts.contains_key(c),
        v.accounts[c].locked,
    ensures
        v.next(t).accounts.contains_key(c),
        v.next(t).accounts[c].locked,
{
}

/// Once locked, an account stays locked, whatever records follow.
pub proof fn lemma_lock_is_permanent(v: LedgerView, ts: Seq<Transaction>, c: u16)
    requires
        v.accounts.contains_key(c),
        v.accounts[c].locked,
    ensures
        v.next_all(ts).accounts.contains_key(c),
        v.next_all(ts).accounts[c].locked,
    decreases ts.len(),
{
    if ts.len() > 0 {
        lemma_step_keeps_lock(v, ts[0], c);
        lemma_lock_is_permanent(v.next(ts[0]), ts.drop_first(), c);
    }
}

/// A locked account refuses every subsequent withdrawal with
/// `AccountLockedError`, regardless of balance and of whatever records come
/// in between; the refused withdrawal changes nothing.
pub proof fn lemma_locked_withdrawals_always_fail(
    v: LedgerView,
    ts: Seq<Transaction>,
    w: Transaction,
)
    requires
        v.accounts.contains_key(w.client_id),
        v.accounts[w.client_id].locked,
        w.transaction_type is Withdrawal,
    ensures
        v.next_all(ts).outcome_of(w) == Outcome::WithdrawalFailed(
            WithdrawError::AccountLockedError,
        ),
        v.next_all(ts).next(w) == v.next_all(ts),
{
    lemma_lock_is_permanent(v, ts, w.client_id);
    let u = v.next_all(ts);
    assert(u.next(w).accounts =~= u.accounts);
    assert(u.next(w) =~= u);
}

/// Resolving or charging back a transaction id that is not currently under
/// dispute is a no-op: the state is unchanged, and only a diagnostic outcome
/// is reported.
pub proof fn lemma_undisputed_resolve_chargeback_noop(v: LedgerView, t: Transaction)
    requires
        t.transaction_type is Resolve || t.transaction_type is Chargeback,
        !v.disputed.contains(t.id),
    ensures
        v.next(t) == v,
        v.outcome_of(t) == Outcome::NotDisputed,
{
}

/// Depositing an amount and then withdrawing the same amount returns the
/// client's account to its pre-deposit available funds and total, with the
/// held funds untouched. The account must be unlocked with non-negative
/// available funds (else the withdrawal is refused) and the deposit must fit
/// in range; the withdrawal then fits by itself.
pub proof fn lemma_deposit_withdraw_round_trip(v: LedgerView, d: Transaction, w: Transaction)
    requires
        d.transaction_type is Deposit,
        w.transaction_type is Withdrawal,
        w.client_id == d.client_id,
        w.amount_or_zero() == d.amount_or_zero(),
        !v.account_or_new(d.client_id).locked,
        v.account_or_new(d.client_id).available >= 0,
        v.account_or_new(d.client_id).deposit_fits(d.amount_or_zero()),
    ensures
        v.next(d).outcome_of(w) == Outcome::Applied,
        v.next(d).next(w).accounts.contains_key(d.client_id),
        v.next(d).next(w).accounts[d.client_id].available == v.account_or_new(
            d.client_id,
        ).available,
        v.next(d).next(w).accounts[d.client_id].total == v.account_or_new(d.client_id).total,
        v.next(d).next(w).accounts[d.client_id].held == v.account_or_new(d.client_id).held,
{
}

impl Ledger {
    /// A fresh, empty ledger.
    pub fn new() -> (r: Ledger)
        ensures
            r@ == LedgerView::empty(),
            r@.wf(),
    {
        Ledger {
            accounts: HashMap::new(),
            transactions: HashMap::new(),
            disputed_transactions: HashSet::new(),
        }
    }

    /// The account held for `client_id`, or a fresh one if none.
    fn account_or_new(&self, client_id: u16) -> (r: Account)
        ensures
            r == self@.account_or_new(client_id),
    {
        match self.accounts.get(&client_id) {
            Some(a) => *a,
            None => Account::new(client_id),
        }
    }

    /// Apply one record, in input order, and report its outcome. The whole
    /// behaviour is the state machine [`LedgerView::step`]: the new state is
    /// `next` of the old one, the report is `outcome_of`, and the ledger
    /// stays well formed.
    pub fn transact(&mut self, transaction: Transaction) -> (r: Outcome)
        requires
            old(self)@.wf(),
        ensures
            final(self)@ == old(self)@.next(transaction),
            r == old(self)@.outcome_of(transaction),
            final(self)@.wf(),
    {
        proof {
            lemma_step_preserves_wf(old(self)@, transaction);
        }
        match transaction.transaction_type {
            TransactionType::Deposit => {
                let mut acct = self.account_or_new(transaction.client_id);
                let amount = match transaction.amount {
                    Some(a) => a,
                    None => 0,
                };
                if acct.total.checked_add(amount).is_some() && acct.available.checked_add(
                    amount,
                ).is_some() {
                    acct.deposit(amount);
                    self.accounts.insert(transaction.client_id, acct);
                    self.transactions.insert(transaction.id, transaction);
                    Outcome::Applied
                } else {
                    Outcome::AmountOutOfRange
                }
            },
            TransactionType::Withdrawal => {
                let mut acct = self.account_or_new(transaction.client_id);
                let amount = match transaction.amount {
                    Some(a) => a,
                    None => 0,
                };
                let fits = if !acct.locked && amount <= acct.available {
                    acct.total.checked_sub(amount).is_some() && acct.available.checked_sub(
                        amount,
                    ).is_some()
                } else {
                    true
                };
                if fits {
                    match acct.withdraw(amount) {
                        Ok(()) => {
                            self.accounts.insert(transaction.client_id, acct);
                            self.transactions.insert(transaction.id, transaction);
                            Outcome::Applied
                        },
                        Err(e) => {
                            self.accounts.insert(transaction.client_id, acct);
                            Outcome::WithdrawalFailed(e)
                        },
                    }
                } else {
                    Outcome::AmountOutOfRange
                }
            },
            TransactionType::Dispute => {
                let amount = match self.transactions.get(&transaction.id) {
                    Some(found_transaction) => match found_transaction.amount {
                        Some(a) => a,
                        None => 0,
                    },
                    None => {
                        return Outcome::TransactionNotFound;
                    },
                };
                let mut acct = self.account_or_new(transaction.client_id);
                if acct.held.checked_add(amount).is_some() && acct.available.checked_sub(
                    amount,
                ).is_some() {
                    acct.hold(amount);
                    self.accounts.insert(transaction.client_id, acct);
                    self.disputed_transactions.insert(transaction.id);
                    Outcome::Applied
                } else {
                    Outcome::AmountOutOfRange
                }
            },
            TransactionType::Resolve => {
                if !self.disputed_transactions.contains(&transaction.id) {
                    return Outcome::NotDisputed;
                }
                let amount = match self.transactions.get(&transaction.id) {
                    Some(found_transaction) => match found_transaction.amount {
                        Some(a) => a,
                        None => 0,
                    },
                    None => {
                        return Outcome::TransactionNotFound;
                    },
                };
                let mut acct = self.account_or_new(transaction.client_id);
                if acct.held.checked_sub(amount).is_some() && acct.available.checked_add(
                    amount,
                ).is_some() {
                    acct.release(amount);
                    self.accounts.insert(transaction.client_id, acct);
                    self.disputed_transactions.remove(&transaction.id);
                    Outcome::Applied
                } else {
                    Outcome::AmountOutOfRange
                }
            },
            TransactionType::Chargeback => {
                if !self.disputed_transactions.contains(&transaction.id) {
                    return Outcome::NotDisputed;
                }
                let amount = match self.transactions.get(&transaction.id) {
                    Some(found_transaction) => match found_transaction.amount {
                        Some(a) => a,
                        None => 0,
                    },
                    None => {
                        return Outcome::TransactionNotFound;
                    },
                };
                let mut acct = self.account_or_new(transaction.client_id);
                if acct.held.checked_sub(amount).is_some() && acct.total.checked_sub(
                    amount,
                ).is_some() {
                    acct.chargeback(amount);
                    self.accounts.insert(transaction.client_id, acct);
                    self.disputed_transactions.remove(&transaction.id);
                    Outcome::Applied
                } else {
                    Outcome::AmountOutOfRange
                }
            },
        }
    }
}

} // verus!
