use vstd::prelude::*;

verus! {

/// The kind of a transaction record.
#[derive(Clone, Copy, Debug)]
pub enum TransactionType {
    Deposit,
    Withdrawal,
    Dispute,
    Resolve,
    Chargeback,
}

/// One transaction record, immutable once created.
///
/// `amount` is a count of minor units at the front end's fixed decimal
/// scale. Deposits and withdrawals carry an amount; disputes, resolves and
/// chargebacks carry none and recover the amount from the ledger's history.
#[derive(Clone, Copy, Debug)]
pub struct Transaction {
    pub transaction_type: TransactionType,
    pub client_id: u16,
    pub id: u32,
    pub amount: Option<i64>,
}

impl Transaction {
    /// The amount the record carries, a missing amount read as zero.
    pub open spec fn amount_or_zero(self) -> i64 {
        match self.amount {
            Some(a) => a,
            None => 0,
        }
    }
}

} // verus!
