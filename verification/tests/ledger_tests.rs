use ledger::ledger::account::WithdrawError;
use ledger::ledger::transaction::Transaction;
use ledger::ledger::transaction::TransactionType;
use ledger::ledger::Ledger;
use ledger::ledger::Outcome;

#[test]
fn deposit_withdraw() {
    let mut ledger = Ledger::new();
    ledger.transact(Transaction {
        transaction_type: TransactionType::Deposit,
        client_id: 0,
        id: 0,
        amount: Some(10),
    });
    ledger.transact(Transaction {
        transaction_type: TransactionType::Withdrawal,
        client_id: 0,
        id: 1,
        amount: Some(5),
    });
    assert_eq!(ledger.accounts.get(&0).unwrap().total, 5);
}

#[test]
fn withdraw_insufficient_funds() {
    let mut ledger = Ledger::new();
    ledger.transact(Transaction {
        transaction_type: TransactionType::Deposit,
        client_id: 0,
        id: 0,
        amount: Some(10),
    });
    ledger.transact(Transaction {
        transaction_type: TransactionType::Withdrawal,
        client_id: 0,
        id: 1,
        amount: Some(15),
    });
    assert_eq!(ledger.accounts.get(&0).unwrap().total, 10);
}

#[test]
fn resolve_dispute() {
    let mut ledger = Ledger::new();
    ledger.transact(Transaction {
        transaction_type: TransactionType::Deposit,
        client_id: 0,
        id: 0,
        amount: Some(10),
    });
    ledger.transact(Transaction {
        transaction_type: TransactionType::Dispute,
        client_id: 0,
        id: 0,
        amount: None,
    });
    assert_eq!(ledger.accounts.get(&0).unwrap().total, 10);
    assert_eq!(ledger.accounts.get(&0).unwrap().available, 0);
    assert_eq!(ledger.accounts.get(&0).unwrap().held, 10);
    ledger.transact(Transaction {
        transaction_type: TransactionType::Resolve,
        client_id: 0,
        id: 0,
        amount: None,
    });
    assert_eq!(ledger.accounts.get(&0).unwrap().total, 10);
    assert_eq!(ledger.accounts.get(&0).unwrap().available, 10);
    assert_eq!(ledger.accounts.get(&0).unwrap().held, 0);
}

#[test]
fn chargeback_dispute() {
    let mut ledger = Ledger::new();
    ledger.transact(Transaction {
        transaction_type: TransactionType::Deposit,
        client_id: 0,
        id: 0,
        amount: Some(10),
    });
    ledger.transact(Transaction {
        transaction_type: TransactionType::Dispute,
        client_id: 0,
        id: 0,
        amount: None,
    });
    assert_eq!(ledger.accounts.get(&0).unwrap().total, 10);
    assert_eq!(ledger.accounts.get(&0).unwrap().available, 0);
    assert_eq!(ledger.accounts.get(&0).unwrap().held, 10);
    ledger.transact(Transaction {
        transaction_type: TransactionType::Chargeback,
        client_id: 0,
        id: 0,
        amount: None,
    });
    assert_eq!(ledger.accounts.get(&0).unwrap().total, 0);
    assert_eq!(ledger.accounts.get(&0).unwrap().available, 0);
    assert_eq!(ledger.accounts.get(&0).unwrap().held, 0);
}

// The remaining tests use amounts in minor units at a decimal scale of four
// fractional digits, as the shipped front end does: 10.0000 is 100_000.

fn tx(kind: TransactionType, client: u16, id: u32, amount: Option<i64>) -> Transaction {
    Transaction { transaction_type: kind, client_id: client, id, amount }
}

#[test]
fn deposit_creates_account() {
    let mut ledger = Ledger::new();
    let o = ledger.transact(tx(TransactionType::Deposit, 1, 1, Some(100_000)));
    assert_eq!(o, Outcome::Applied);
    let a = ledger.accounts.get(&1).unwrap();
    assert_eq!(a.available, 100_000);
    assert_eq!(a.held, 0);
    assert_eq!(a.total, 100_000);
    assert!(!a.locked);
}

#[test]
fn insufficient_withdrawal_rejected() {
    let mut ledger = Ledger::new();
    ledger.transact(tx(TransactionType::Deposit, 1, 1, Some(100_000)));
    let o = ledger.transact(tx(TransactionType::Withdrawal, 1, 2, Some(150_000)));
    assert_eq!(
        o,
        Outcome::WithdrawalFailed(WithdrawError::InsufficientBalanceError)
    );
    let a = ledger.accounts.get(&1).unwrap();
    assert_eq!(a.available, 100_000);
    assert_eq!(a.total, 100_000);
}

#[test]
fn dispute_then_resolve() {
    let mut ledger = Ledger::new();
    ledger.transact(tx(TransactionType::Deposit, 1, 1, Some(100_000)));
    let o = ledger.transact(tx(TransactionType::Dispute, 1, 1, None));
    assert_eq!(o, Outcome::Applied);
    {
        let a = ledger.accounts.get(&1).unwrap();
        assert_eq!(a.available, 0);
        assert_eq!(a.held, 100_000);
        assert_eq!(a.total, 100_000);
    }
    let o = ledger.transact(tx(TransactionType::Resolve, 1, 1, None));
    assert_eq!(o, Outcome::Applied);
    let a = ledger.accounts.get(&1).unwrap();
    assert_eq!(a.available, 100_000);
    assert_eq!(a.held, 0);
    assert_eq!(a.total, 100_000);
}

#[test]
fn dispute_then_chargeback_locks() {
    let mut ledger = Ledger::new();
    ledger.transact(tx(TransactionType::Deposit, 1, 1, Some(100_000)));
    ledger.transact(tx(TransactionType::Dispute, 1, 1, None));
    let o = ledger.transact(tx(TransactionType::Chargeback, 1, 1, None));
    assert_eq!(o, Outcome::Applied);
    {
        let a = ledger.accounts.get(&1).unwrap();
        assert_eq!(a.available, 0);
        assert_eq!(a.held, 0);
        assert_eq!(a.total, 0);
        assert!(a.locked);
    }
    let o = ledger.transact(tx(TransactionType::Withdrawal, 1, 2, Some(1)));
    assert_eq!(
        o,
        Outcome::WithdrawalFailed(WithdrawError::AccountLockedError)
    );
    let a = ledger.accounts.get(&1).unwrap();
    assert_eq!(a.available, 0);
    assert_eq!(a.total, 0);
    assert!(a.locked);
}

#[test]
fn deposit_on_locked_account_still_succeeds() {
    let mut ledger = Ledger::new();
    ledger.transact(tx(TransactionType::Deposit, 1, 1, Some(100_000)));
    ledger.transact(tx(TransactionType::Dispute, 1, 1, None));
    ledger.transact(tx(TransactionType::Chargeback, 1, 1, None));
    let o = ledger.transact(tx(TransactionType::Deposit, 1, 2, Some(50_000)));
    assert_eq!(o, Outcome::Applied);
    let a = ledger.accounts.get(&1).unwrap();
    assert_eq!(a.available, 50_000);
    assert_eq!(a.total, 50_000);
    assert!(a.locked);
}

#[test]
fn dispute_unknown_tx_creates_no_account() {
    let mut ledger = Ledger::new();
    let o = ledger.transact(tx(TransactionType::Dispute, 1, 99, None));
    assert_eq!(o, Outcome::TransactionNotFound);
    assert!(ledger.accounts.get(&1).is_none());
    assert!(ledger.accounts.is_empty());
}

#[test]
fn resolve_undisputed_is_noop() {
    let mut ledger = Ledger::new();
    ledger.transact(tx(TransactionType::Deposit, 1, 1, Some(100_000)));
    let o = ledger.transact(tx(TransactionType::Resolve, 1, 1, None));
    assert_eq!(o, Outcome::NotDisputed);
    let a = ledger.accounts.get(&1).unwrap();
    assert_eq!(a.available, 100_000);
    assert_eq!(a.held, 0);
    assert_eq!(a.total, 100_000);
}

#[test]
fn chargeback_undisputed_is_noop() {
    let mut ledger = Ledger::new();
    ledger.transact(tx(TransactionType::Deposit, 1, 1, Some(100_000)));
    let o = ledger.transact(tx(TransactionType::Chargeback, 1, 1, None));
    assert_eq!(o, Outcome::NotDisputed);
    let a = ledger.accounts.get(&1).unwrap();
    assert_eq!(a.available, 100_000);
    assert_eq!(a.held, 0);
    assert_eq!(a.total, 100_000);
    assert!(!a.locked);
}

#[test]
fn deposit_withdraw_round_trip() {
    let mut ledger = Ledger::new();
    ledger.transact(tx(TransactionType::Deposit, 1, 1, Some(12_345)));
    let o = ledger.transact(tx(TransactionType::Deposit, 1, 2, Some(55_555)));
    assert_eq!(o, Outcome::Applied);
    let o = ledger.transact(tx(TransactionType::Withdrawal, 1, 3, Some(55_555)));
    assert_eq!(o, Outcome::Applied);
    let a = ledger.accounts.get(&1).unwrap();
    assert_eq!(a.available, 12_345);
    assert_eq!(a.total, 12_345);
    assert_eq!(a.held, 0);
}

#[test]
fn deposit_overflow_is_skipped() {
    let mut ledger = Ledger::new();
    ledger.transact(tx(TransactionType::Deposit, 1, 1, Some(i64::MAX)));
    let o = ledger.transact(tx(TransactionType::Deposit, 1, 2, Some(1)));
    assert_eq!(o, Outcome::AmountOutOfRange);
    let a = ledger.accounts.get(&1).unwrap();
    assert_eq!(a.available, i64::MAX);
    assert_eq!(a.total, i64::MAX);
    // The skipped deposit was not recorded, so it cannot be disputed.
    let o = ledger.transact(tx(TransactionType::Dispute, 1, 2, None));
    assert_eq!(o, Outcome::TransactionNotFound);
}

#[test]
fn missing_amount_reads_as_zero() {
    let mut ledger = Ledger::new();
    let o = ledger.transact(tx(TransactionType::Withdrawal, 1, 1, None));
    assert_eq!(o, Outcome::Applied);
    let a = ledger.accounts.get(&1).unwrap();
    assert_eq!(a.available, 0);
    assert_eq!(a.total, 0);
}

#[test]
fn disputing_a_withdrawal_drives_available_negative() {
    // Pins the literal dispute rule: a hold is applied whether the disputed
    // transaction was a deposit or a withdrawal, so disputing a withdrawal
    // pushes the available funds further down rather than restoring them.
    let mut ledger = Ledger::new();
    ledger.transact(tx(TransactionType::Deposit, 1, 1, Some(100_000)));
    ledger.transact(tx(TransactionType::Withdrawal, 1, 2, Some(40_000)));
    let o = ledger.transact(tx(TransactionType::Dispute, 1, 2, None));
    assert_eq!(o, Outcome::Applied);
    let a = ledger.accounts.get(&1).unwrap();
    assert_eq!(a.available, 20_000);
    assert_eq!(a.held, 40_000);
    assert_eq!(a.total, 60_000);
}

#[test]
fn dispute_follows_incoming_client_id() {
    // Pins the literal dispute rule: the hold lands on the account of the
    // incoming record's client, even when that is not the owner of the
    // disputed transaction.
    let mut ledger = Ledger::new();
    ledger.transact(tx(TransactionType::Deposit, 1, 1, Some(100_000)));
    let o = ledger.transact(tx(TransactionType::Dispute, 2, 1, None));
    assert_eq!(o, Outcome::Applied);
    let a = ledger.accounts.get(&2).unwrap();
    assert_eq!(a.available, -100_000);
    assert_eq!(a.held, 100_000);
    assert_eq!(a.total, 0);
    let owner = ledger.accounts.get(&1).unwrap();
    assert_eq!(owner.available, 100_000);
}

#[test]
fn redisputing_after_resolve_is_allowed() {
    let mut ledger = Ledger::new();
    ledger.transact(tx(TransactionType::Deposit, 1, 1, Some(100_000)));
    ledger.transact(tx(TransactionType::Dispute, 1, 1, None));
    ledger.transact(tx(TransactionType::Resolve, 1, 1, None));
    let o = ledger.transact(tx(TransactionType::Dispute, 1, 1, None));
    assert_eq!(o, Outcome::Applied);
    let a = ledger.accounts.get(&1).unwrap();
    assert_eq!(a.available, 0);
    assert_eq!(a.held, 100_000);
    assert_eq!(a.total, 100_000);
}
