//! A payments ledger: client accounts that take deposits, withdrawals,
//! disputes, resolutions and chargebacks, with exact decimal balances.
//!
//! - [`money`]: decimal amounts. The arithmetic is `rust_decimal`'s; an
//!   amount counts, in contracts, as a whole number of steps of `10^-28`.
//! - [`transaction`], [`errors`]: what comes in, and what comes back when it
//!   is turned down.
//! - [`account`]: the rules of one account, as a function from an account
//!   and a transaction to the account after it, and the code that follows
//!   them.
//! - [`laws`]: what follows from the rules for every account and every
//!   sequence of transactions.
//! - [`ledger`]: all accounts in one owner's hands.
//! - [`engine`]: all accounts behind locks, for many threads.
//! - [`summary`]: the report of an account.
//! - [`program`]: source, engine and sink in a row.

pub mod account;
pub mod engine;
pub mod errors;
pub mod laws;
pub mod ledger;
pub mod money;
pub mod program;
pub mod summary;
pub mod transaction;

pub use crate::account::{Account, AccountBuilder, AccountView, Balances, Change, DepositRecord, Rejection};
pub use crate::engine::{MemoryThreadSafePaymentEngine, PaymentEngine};
pub use crate::errors::TransactionError;
pub use crate::ledger::Ledger;
pub use crate::money::Money;
pub use crate::program::{Pipeline, Sink, Source, TransactionPipeline, TransactionPipelineBuilder};
pub use crate::summary::TransactionResultSummary;
pub use crate::transaction::{ClientId, Transaction, TransactionBuilder, TransactionType, TransactionView, TxId};
