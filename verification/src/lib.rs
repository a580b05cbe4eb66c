//! A verified payments ledger.
//!
//! The ledger ingests an ordered stream of transaction records — deposits,
//! withdrawals, disputes, resolutions and chargebacks — and maintains one
//! account per client. Every mutation is specified against a mathematical
//! model of the ledger, and the accounting invariants (a total that is always
//! available plus held, a lock that no later withdrawal can pass) are proved.
//!
//! Monetary amounts are exact fixed-point values: a count of minor units at
//! a fixed decimal scale, carried as `i64`. The front end that reads and
//! writes decimal text chooses the scale; the ledger's rules are the same at
//! any scale.

pub mod ledger;
