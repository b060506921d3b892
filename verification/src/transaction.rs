//! Transactions: one ledger event each.

use crate::errors::TransactionError;
use crate::money::Money;
use vstd::prelude::*;
use vstd::std_specs::cmp::PartialEqSpecImpl;
use vstd::std_specs::convert::IntoSpec;

verus! {

/// The owner of an account.
pub type ClientId = u16;

/// The number of a transaction.
pub type TxId = u32;

/// The kind of a transaction.
#[derive(Clone, Copy, Debug, PartialEq, Eq, Structural)]
pub enum TransactionType {
    /// Adds funds to an account.
    Deposit,
    /// Takes available funds out of an account.
    Withdrawal,
    /// Freezes the funds of an earlier deposit.
    Dispute,
    /// Ends a dispute and frees the funds.
    Resolve,
    /// Ends a dispute, removes the funds and locks the account.
    Chargeback,
}

/// One ledger event. For a deposit or a withdrawal, `transaction_id` numbers
/// the event itself and `amount` is present; for a dispute, a resolution or
/// a chargeback, `transaction_id` names the deposit that is meant.
#[derive(Clone, Copy, Debug)]
pub struct Transaction {
    ty: TransactionType,
    client_id: ClientId,
    transaction_id: TxId,
    amount: Option<Money>,
}

/// What a transaction holds, for contracts.
pub struct TransactionView {
    pub ty: TransactionType,
    pub client_id: ClientId,
    pub transaction_id: TxId,
    pub amount: Option<Money>,
}

impl TransactionView {
    /// The amount, if there is one, is a valid one.
    pub open spec fn wf(self) -> bool {
        self.amount matches Some(a) ==> a.wf()
    }
}

impl View for Transaction {
    type V = TransactionView;

    closed spec fn view(&self) -> TransactionView {
        TransactionView {
            ty: self.ty,
            client_id: self.client_id,
            transaction_id: self.transaction_id,
            amount: self.amount,
        }
    }
}

impl PartialEq for Transaction {
    /// Equality of the kind, the client, the number and the amount; `1.50` equals `1.5`.
    fn eq(&self, other: &Transaction) -> (r: bool) {
        self.ty == other.ty && self.client_id == other.client_id && self.transaction_id == other.transaction_id
            && match (self.amount, other.amount) {
            (Some(a), Some(b)) => a == b,
            (None, None) => true,
            _ => false,
        }
    }
}

impl PartialEqSpecImpl for Transaction {
    open spec fn obeys_eq_spec() -> bool {
        true
    }

    open spec fn eq_spec(&self, other: &Transaction) -> bool {
        &&& self@.ty == other@.ty
        &&& self@.client_id == other@.client_id
        &&& self@.transaction_id == other@.transaction_id
        &&& match (self@.amount, other@.amount) {
            (Some(a), Some(b)) => a@ == b@,
            (None, None) => true,
            _ => false,
        }
    }
}

/// A transaction in the making. The kind, the client and the number are
/// each `()` until they are set, and only a builder with all three set can
/// build; the amount is optional.
pub struct TransactionBuilder<T, C, I> {
    pub ty: T,
    pub client_id: C,
    pub transaction_id: I,
    pub amount: Option<Money>,
}

impl<C, I> TransactionBuilder<(), C, I> {
    /// Sets the kind of the transaction.
    pub fn ty(self, ty: TransactionType) -> (r: TransactionBuilder<TransactionType, C, I>)
        ensures
            r.ty == ty,
            r.client_id == self.client_id,
            r.transaction_id == self.transaction_id,
            r.amount == self.amount,
    {
        TransactionBuilder {
            ty,
            client_id: self.client_id,
            transaction_id: self.transaction_id,
            amount: self.amount,
        }
    }
}

impl<T, I> TransactionBuilder<T, (), I> {
    /// Sets the client.
    pub fn client_id(self, client_id: ClientId) -> (r: TransactionBuilder<T, ClientId, I>)
        ensures
            r.ty == self.ty,
            r.client_id == client_id,
            r.transaction_id == self.transaction_id,
            r.amount == self.amount,
    {
        TransactionBuilder { ty: self.ty, client_id, transaction_id: self.transaction_id, amount: self.amount }
    }
}

impl<T, C> TransactionBuilder<T, C, ()> {
    /// Sets the number of the transaction.
    pub fn transaction_id(self, transaction_id: TxId) -> (r: TransactionBuilder<T, C, TxId>)
        ensures
            r.ty == self.ty,
            r.client_id == self.client_id,
            r.transaction_id == transaction_id,
            r.amount == self.amount,
    {
        TransactionBuilder { ty: self.ty, client_id: self.client_id, transaction_id, amount: self.amount }
    }
}

impl<T, C, I> TransactionBuilder<T, C, I> {
    /// Sets the amount.
    pub fn amount<A: Into<Money>>(self, amount: A) -> (r: TransactionBuilder<T, C, I>)
        ensures
            r.ty == self.ty,
            r.client_id == self.client_id,
            r.transaction_id == self.transaction_id,
            A::obeys_into_spec() ==> r.amount == Some(amount.into_spec()),
    {
        TransactionBuilder {
            ty: self.ty,
            client_id: self.client_id,
            transaction_id: self.transaction_id,
            amount: Some(amount.into()),
        }
    }
}

impl TransactionBuilder<TransactionType, ClientId, TxId> {
    /// The transaction of the parts that were set.
    pub fn build(self) -> (t: Transaction)
        ensures
            t@ == (TransactionView {
                ty: self.ty,
                client_id: self.client_id,
                transaction_id: self.transaction_id,
                amount: self.amount,
            }),
    {
        Transaction::new(self.ty, self.client_id, self.transaction_id, self.amount)
    }
}

impl Transaction {
    /// A builder with nothing set.
    pub fn builder() -> (r: TransactionBuilder<(), (), ()>)
        ensures
            r.amount is None,
    {
        TransactionBuilder { ty: (), client_id: (), transaction_id: (), amount: None }
    }

    /// A transaction of the given parts.
    pub fn new(ty: TransactionType, client_id: ClientId, transaction_id: TxId, amount: Option<Money>) -> (t:
        Transaction)
        ensures
            t@ == (TransactionView { ty, client_id, transaction_id, amount }),
    {
        Transaction { ty, client_id, transaction_id, amount }
    }

    /// The kind of the transaction.
    pub fn ty(&self) -> (r: &TransactionType)
        ensures
            *r == self@.ty,
    {
        &self.ty
    }

    /// The client whose account the transaction is for.
    pub fn client_id(&self) -> (r: ClientId)
        ensures
            r == self@.client_id,
    {
        self.client_id
    }

    /// The number of the transaction, or of the deposit that it names.
    pub fn transaction_id(&self) -> (r: TxId)
        ensures
            r == self@.transaction_id,
    {
        self.transaction_id
    }

    /// The amount, where the transaction has one.
    pub fn amount(&self) -> (r: Option<Money>)
        ensures
            r == self@.amount,
            self@.wf(),
    {
        match self.amount {
            Some(a) => {
                proof {
                    use_type_invariant(&a);
                }
                Some(a)
            },
            None => None,
        }
    }

    /// The amount, or an invalid-amount error that says `msg`.
    pub fn amount_or_err(&self, msg: &str) -> (r: Result<Money, TransactionError>)
        ensures
            self@.wf(),
            match self@.amount {
                Some(a) => r == Ok::<Money, TransactionError>(a),
                None => r matches Err(TransactionError::InvalidTransactionAmount(s)) && s@ == msg@,
            },
    {
        match self.amount() {
            Some(a) => Ok(a),
            None => Err(TransactionError::InvalidTransactionAmount(msg.to_string())),
        }
    }

    /// Whether later transactions can refer to this one: a deposit or a dispute.
    pub fn should_be_tracked(&self) -> (r: bool)
        ensures
            r == (self@.ty == TransactionType::Deposit || self@.ty == TransactionType::Dispute),
    {
        match self.ty {
            TransactionType::Deposit => true,
            TransactionType::Dispute => true,
            _ => false,
        }
    }
}

} // verus!
