//! A transaction-processing engine: per-client accounts, a ledger of
//! deposits and withdrawals, and the dispute lifecycle that moves funds
//! between available and held balances.

pub mod amount;
pub mod model;
pub mod store;
pub mod processor;
pub mod laws;
pub mod dispatcher;
