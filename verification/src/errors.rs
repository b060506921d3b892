//! The reasons for which a transaction is turned down.

use crate::transaction::Transaction;
use vstd::prelude::*;

verus! {

/// Why a transaction, or a run over many, failed.
#[derive(Debug)]
pub enum TransactionError {
    /// The transaction number could not be read.
    InvalidTransactionId(String),
    /// The client number could not be read.
    InvalidClient(String),
    /// The kind of transaction could not be read.
    InvalidTransactionType(String),
    /// The amount is missing, negative, or cannot be applied exactly.
    InvalidTransactionAmount(String),
    /// The balances do not allow the funds to be moved.
    InconsistenceBalance(String, Transaction),
    /// The input could not be parsed.
    CSVError(String),
    /// Shared state could not be reached.
    SyncError(String),
    /// A withdrawal asks for more than is available.
    InsufficientFunds(Transaction),
    /// The account is locked.
    AccountLocked(Transaction),
    /// A deposit with this number was accepted before.
    DuplicateTransaction(Transaction),
    /// A dispute names a deposit that the account never accepted.
    CannotDisputeWithoutDeposit(Transaction),
    /// A resolution names a deposit that is not under dispute.
    CannotResolveWithoutDispute(Transaction),
    /// A dispute names a deposit that is under dispute already.
    TransactionBeingDisputed(Transaction),
    /// A chargeback names a deposit that is not under dispute.
    CannotChargebackWithoutDispute(Transaction),
}

} // verus!
