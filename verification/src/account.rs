//! One client's account: the balances, the deposits that were accepted, and
//! the rules by which a transaction changes them or is turned down.
//!
//! The decimal library computes a new balance; the account takes it only
//! if it is exact. So the balances never drift: `total` is to the last digit
//! what was deposited less what was withdrawn or charged back.

use crate::errors::TransactionError;
use crate::money::{exact_sum, lemma_exact_sum, lemma_sign, Money};
use crate::transaction::{ClientId, Transaction, TransactionType, TransactionView, TxId};
use std::collections::HashMap;
use vstd::prelude::*;
use vstd::std_specs::convert::IntoSpec;
use vstd::std_specs::hash::*;

verus! {

broadcast use group_hash_axioms;

/// A deposit that an account accepted.
#[derive(Clone, Copy, Debug)]
pub struct DepositRecord {
    /// What was deposited.
    pub amount: Money,
    /// Whether the deposit is under dispute now.
    pub disputed: bool,
}

/// The three balances of an account.
#[derive(Clone, Copy, Debug)]
pub struct Balances {
    /// Funds that can be withdrawn.
    pub available: Money,
    /// Funds frozen by disputes.
    pub held: Money,
    /// All funds of the account.
    pub total: Money,
}

/// How a transaction changes one balance.
#[derive(Clone, Copy, Debug, PartialEq, Eq, Structural)]
pub enum Change {
    /// The amount is added.
    Credit,
    /// The amount is taken away.
    Debit,
    /// The balance stays.
    Keep,
}

/// Why an account turns a transaction down.
#[derive(Clone, Copy, Debug, PartialEq, Eq, Structural)]
pub enum Rejection {
    /// The account is locked.
    Locked,
    /// A deposit or withdrawal without an amount.
    AmountMissing,
    /// A deposit or withdrawal of less than zero.
    AmountNegative,
    /// A deposit or withdrawal whose new balances are not exact.
    AmountInexact,
    /// A deposit whose number the account knows already.
    Duplicate,
    /// A withdrawal of more than is available.
    InsufficientFunds,
    /// A dispute of a deposit that the account does not know.
    UnknownDeposit,
    /// A dispute of a deposit that is under dispute.
    AlreadyDisputed,
    /// A resolution or chargeback of a deposit that is not under dispute.
    NotDisputed,
    /// A dispute of more than is available, or a resolution or chargeback of more than is held.
    ExceedsBalance,
    /// A dispute, resolution or chargeback whose new balances are not exact.
    Unbalanced,
}

/// What an account holds, for contracts.
pub struct AccountView {
    pub client_id: ClientId,
    pub balances: Balances,
    pub locked: bool,
    pub deposits: Map<TxId, DepositRecord>,
}

/// How a transaction of kind `ty` changes `available`, `held` and `total`, in this order.
pub open spec fn plan(ty: TransactionType) -> (Change, Change, Change) {
    match ty {
        TransactionType::Deposit => (Change::Credit, Change::Keep, Change::Credit),
        TransactionType::Withdrawal => (Change::Debit, Change::Keep, Change::Debit),
        TransactionType::Dispute => (Change::Debit, Change::Credit, Change::Keep),
        TransactionType::Resolve => (Change::Credit, Change::Debit, Change::Keep),
        TransactionType::Chargeback => (Change::Keep, Change::Debit, Change::Debit),
    }
}

/// What the decimal arithmetic gives for `before` changed by `amount`.
pub open spec fn moved(before: Money, amount: Money, change: Change) -> Option<Money> {
    match change {
        Change::Credit => before.sum(amount),
        Change::Debit => before.difference(amount),
        Change::Keep => Some(before),
    }
}

/// Whether `after` is exactly `before` changed by `amount`.
pub open spec fn moves(before: Money, amount: Money, after: Money, change: Change) -> bool {
    match change {
        Change::Credit => exact_sum(before, amount, after),
        Change::Debit => exact_sum(after, amount, before),
        Change::Keep => after == before,
    }
}

/// By how many steps of `10^-28` a change of `amount` moves a balance.
pub open spec fn delta(amount: Money, change: Change) -> int {
    match change {
        Change::Credit => amount@,
        Change::Debit => -amount@,
        Change::Keep => 0,
    }
}

/// What the deposit `id` keeps frozen: its amount while it is under dispute.
pub open spec fn frozen_by(deposits: Map<TxId, DepositRecord>, id: TxId) -> int {
    if deposits.contains_key(id) && deposits[id].disputed {
        deposits[id].amount@
    } else {
        0
    }
}

/// What the deposits with a number below `n` keep frozen.
pub open spec fn frozen_below(deposits: Map<TxId, DepositRecord>, n: nat) -> int
    decreases n,
{
    if n == 0 {
        0
    } else {
        frozen_below(deposits, (n - 1) as nat) + frozen_by(deposits, (n - 1) as TxId)
    }
}

/// What all the deposits keep frozen: the amounts of those under dispute.
pub open spec fn frozen(deposits: Map<TxId, DepositRecord>) -> int {
    frozen_below(deposits, 0x1_0000_0000)
}

/// The text of an error for a rejection of a transaction of kind `ty`, where the error has one.
pub open spec fn message(why: Rejection, ty: TransactionType) -> Seq<char> {
    match why {
        Rejection::AmountMissing => if ty == TransactionType::Deposit {
            "Deposit amount is missing"@
        } else {
            "Withdrawal amount is missing"@
        },
        Rejection::AmountNegative => if ty == TransactionType::Deposit {
            "Deposit amount is negative"@
        } else {
            "Withdrawal amount is negative"@
        },
        Rejection::AmountInexact => if ty == TransactionType::Deposit {
            "Deposit amount cannot be added exactly"@
        } else {
            "Withdrawal amount cannot be subtracted exactly"@
        },
        Rejection::ExceedsBalance => if ty == TransactionType::Dispute {
            "Attempt to dispute more than available"@
        } else if ty == TransactionType::Resolve {
            "Attempt to resolve more than held"@
        } else {
            "Attempt to chargeback more than held"@
        },
        _ => "Disputed amount cannot be moved exactly"@,
    }
}

/// Whether `e` is the error that reports the rejection `why` of `tx`.
pub open spec fn reports(e: TransactionError, why: Rejection, tx: Transaction) -> bool {
    match why {
        Rejection::Locked => e == TransactionError::AccountLocked(tx),
        Rejection::AmountMissing | Rejection::AmountNegative | Rejection::AmountInexact => {
            e matches TransactionError::InvalidTransactionAmount(s) && s@ == message(why, tx@.ty)
        },
        Rejection::Duplicate => e == TransactionError::DuplicateTransaction(tx),
        Rejection::InsufficientFunds => e == TransactionError::InsufficientFunds(tx),
        Rejection::UnknownDeposit => e == TransactionError::CannotDisputeWithoutDeposit(tx),
        Rejection::AlreadyDisputed => e == TransactionError::TransactionBeingDisputed(tx),
        Rejection::NotDisputed => if tx@.ty == TransactionType::Resolve {
            e == TransactionError::CannotResolveWithoutDispute(tx)
        } else {
            e == TransactionError::CannotChargebackWithoutDispute(tx)
        },
        Rejection::ExceedsBalance | Rejection::Unbalanced => {
            e matches TransactionError::InconsistenceBalance(s, t) && s@ == message(why, tx@.ty) && t == tx
        },
    }
}

impl Balances {
    /// Valid amounts, none below zero, and `total` the sum of the other two.
    pub open spec fn wf(self) -> bool {
        &&& self.available.wf()
        &&& self.held.wf()
        &&& self.total.wf()
        &&& self.available@ >= 0
        &&& self.held@ >= 0
        &&& self.total@ == self.available@ + self.held@
    }

    /// What the decimal arithmetic gives for these balances after a
    /// transaction of kind `ty` over `amount`; `None` where it overflows.
    pub open spec fn proposed(self, amount: Money, ty: TransactionType) -> Option<Balances> {
        let (a, h, t) = plan(ty);
        match (moved(self.available, amount, a), moved(self.held, amount, h), moved(self.total, amount, t)) {
            (Some(available), Some(held), Some(total)) => Some(Balances { available, held, total }),
            _ => None,
        }
    }

    /// Whether `amount` and `after` hold valid amounts, and `after` is
    /// exactly these balances after a transaction of kind `ty` over `amount`.
    pub open spec fn follows(self, amount: Money, after: Balances, ty: TransactionType) -> bool {
        let (a, h, t) = plan(ty);
        &&& amount.wf()
        &&& after.available.wf()
        &&& after.held.wf()
        &&& after.total.wf()
        &&& moves(self.available, amount, after.available, a)
        &&& moves(self.held, amount, after.held, h)
        &&& moves(self.total, amount, after.total, t)
    }

    /// Whether `proposal` holds balances that follow from these.
    pub open spec fn accepts(self, amount: Money, proposal: Option<Balances>, ty: TransactionType) -> bool {
        proposal matches Some(after) && self.follows(amount, after, ty)
    }
}

/// Balances that follow from others differ from them by the amount, to the last digit.
pub proof fn lemma_follows(before: Balances, amount: Money, after: Balances, ty: TransactionType)
    requires
        before.wf(),
        before.follows(amount, after, ty),
    ensures
        after.available@ == before.available@ + delta(amount, plan(ty).0),
        after.held@ == before.held@ + delta(amount, plan(ty).1),
        after.total@ == before.total@ + delta(amount, plan(ty).2),
        after.total@ == after.available@ + after.held@,
{
    lemma_moves(before.available, amount, after.available, plan(ty).0);
    lemma_moves(before.held, amount, after.held, plan(ty).1);
    lemma_moves(before.total, amount, after.total, plan(ty).2);
}

/// A balance that moves by an amount differs from the one before by that amount.
pub proof fn lemma_moves(before: Money, amount: Money, after: Money, change: Change)
    requires
        before.wf(),
        amount.wf(),
        after.wf(),
        moves(before, amount, after, change),
    ensures
        after@ == before@ + delta(amount, change),
{
    match change {
        Change::Credit => lemma_exact_sum(before, amount, after),
        Change::Debit => lemma_exact_sum(after, amount, before),
        Change::Keep => {},
    }
}

impl AccountView {
    /// An account without funds or deposits.
    pub open spec fn opened(client_id: ClientId) -> AccountView {
        AccountView {
            client_id,
            balances: Balances {
                available: Money::spec_new(0, 0),
                held: Money::spec_new(0, 0),
                total: Money::spec_new(0, 0),
            },
            locked: false,
            deposits: Map::empty(),
        }
    }

    /// Valid balances, deposits of valid amounts, none below zero, and
    /// `held` no less than what the deposits under dispute keep frozen.
    pub open spec fn wf(self) -> bool {
        &&& self.balances.wf()
        &&& forall|id: TxId| #[trigger]
            self.deposits.contains_key(id) ==> self.deposits[id].amount.wf() && self.deposits[id].amount@ >= 0
        &&& self.balances.held@ >= frozen(self.deposits)
    }

    /// Whether the account knows a deposit `id` that is under dispute.
    pub open spec fn disputed(self, id: TxId) -> bool {
        self.deposits.contains_key(id) && self.deposits[id].disputed
    }

    /// The amount that `tx` is about: its own for a deposit or a withdrawal,
    /// else that of the deposit it names.
    pub open spec fn amount_of(self, tx: TransactionView) -> Option<Money> {
        match tx.ty {
            TransactionType::Deposit | TransactionType::Withdrawal => tx.amount,
            _ => if self.deposits.contains_key(tx.transaction_id) {
                Some(self.deposits[tx.transaction_id].amount)
            } else {
                None
            },
        }
    }

    /// The balances that the decimal arithmetic gives for the account after `tx`.
    pub open spec fn proposal(self, tx: TransactionView) -> Option<Balances> {
        match self.amount_of(tx) {
            Some(amount) => self.balances.proposed(amount, tx.ty),
            None => None,
        }
    }

    /// Why the account turns `tx` down when `proposal` stands for its new
    /// balances; `None` where it accepts `tx`.
    pub open spec fn rejection(self, tx: TransactionView, proposal: Option<Balances>) -> Option<Rejection> {
        let id = tx.transaction_id;
        let b = self.balances;
        if self.locked {
            Some(Rejection::Locked)
        } else {
            match tx.ty {
                TransactionType::Deposit => match tx.amount {
                    None => Some(Rejection::AmountMissing),
                    Some(a) => if a@ < 0 {
                        Some(Rejection::AmountNegative)
                    } else if self.deposits.contains_key(id) {
                        Some(Rejection::Duplicate)
                    } else if !b.accepts(a, proposal, tx.ty) {
                        Some(Rejection::AmountInexact)
                    } else {
                        None
                    },
                },
                TransactionType::Withdrawal => match tx.amount {
                    None => Some(Rejection::AmountMissing),
                    Some(a) => if a@ < 0 {
                        Some(Rejection::AmountNegative)
                    } else if !(a@ <= b.available@) {
                        Some(Rejection::InsufficientFunds)
                    } else if !b.accepts(a, proposal, tx.ty) {
                        Some(Rejection::AmountInexact)
                    } else {
                        None
                    },
                },
                TransactionType::Dispute => if !self.deposits.contains_key(id) {
                    Some(Rejection::UnknownDeposit)
                } else if self.deposits[id].disputed {
                    Some(Rejection::AlreadyDisputed)
                } else if !(self.deposits[id].amount@ <= b.available@) {
                    Some(Rejection::ExceedsBalance)
                } else if !b.accepts(self.deposits[id].amount, proposal, tx.ty) {
                    Some(Rejection::Unbalanced)
                } else {
                    None
                },
                TransactionType::Resolve | TransactionType::Chargeback => if !self.disputed(id) {
                    Some(Rejection::NotDisputed)
                } else if !(self.deposits[id].amount@ <= b.held@) {
                    Some(Rejection::ExceedsBalance)
                } else if !b.accepts(self.deposits[id].amount, proposal, tx.ty) {
                    Some(Rejection::Unbalanced)
                } else {
                    None
                },
            }
        }
    }

    /// The account after it accepted `tx` with the new balances `after`.
    pub open spec fn applied(self, tx: TransactionView, after: Balances) -> AccountView {
        let id = tx.transaction_id;
        AccountView {
            client_id: self.client_id,
            balances: after,
            locked: self.locked || tx.ty == TransactionType::Chargeback,
            deposits: match tx.ty {
                TransactionType::Deposit => self.deposits.insert(
                    id,
                    DepositRecord { amount: tx.amount->0, disputed: false },
                ),
                TransactionType::Withdrawal => self.deposits,
                TransactionType::Dispute => self.deposits.insert(
                    id,
                    DepositRecord { amount: self.deposits[id].amount, disputed: true },
                ),
                TransactionType::Resolve | TransactionType::Chargeback => self.deposits.insert(
                    id,
                    DepositRecord { amount: self.deposits[id].amount, disputed: false },
                ),
            },
        }
    }

    /// The account after `tx`, and whether it turned `tx` down, when
    /// `proposal` stands for its new balances.
    pub open spec fn step(self, tx: TransactionView, proposal: Option<Balances>) -> (AccountView, Option<Rejection>) {
        match self.rejection(tx, proposal) {
            Some(why) => (self, Some(why)),
            None => (self.applied(tx, proposal->0), None),
        }
    }
}

/// Without deposits nothing is frozen.
pub proof fn lemma_frozen_empty(n: nat)
    requires
        n <= 0x1_0000_0000,
    ensures
        frozen_below(Map::<TxId, DepositRecord>::empty(), n) == 0,
    decreases n,
{
    if n > 0 {
        lemma_frozen_empty((n - 1) as nat);
    }
}

/// Filing `record` under `id` changes what is frozen by what `id` keeps
/// frozen after and before.
pub proof fn lemma_frozen_insert(deposits: Map<TxId, DepositRecord>, id: TxId, record: DepositRecord, n: nat)
    requires
        n <= 0x1_0000_0000,
    ensures
        frozen_below(deposits.insert(id, record), n) == frozen_below(deposits, n) + (if id < n {
            frozen_by(deposits.insert(id, record), id) - frozen_by(deposits, id)
        } else {
            0
        }),
    decreases n,
{
    if n > 0 {
        lemma_frozen_insert(deposits, id, record, (n - 1) as nat);
    }
}

/// Where no amount is below zero, what is frozen is at least what any one
/// deposit keeps frozen.
pub proof fn lemma_frozen_covers(deposits: Map<TxId, DepositRecord>, id: TxId, n: nat)
    requires
        n <= 0x1_0000_0000,
        forall|k: TxId| #[trigger] deposits.contains_key(k) ==> deposits[k].amount@ >= 0,
    ensures
        frozen_below(deposits, n) >= 0,
        id < n ==> frozen_below(deposits, n) >= frozen_by(deposits, id),
    decreases n,
{
    if n > 0 {
        lemma_frozen_covers(deposits, id, (n - 1) as nat);
    }
}

/// An account without funds or deposits is valid.
pub proof fn lemma_opened(client_id: ClientId)
    ensures
        AccountView::opened(client_id).wf(),
        AccountView::opened(client_id).balances.total@ == 0,
{
    Money::lemma_spec_new(0, 0);
    lemma_sign(Money::spec_new(0, 0));
    lemma_frozen_empty(0x1_0000_0000);
}

/// An accepted transaction moves the balances by its amount, to the last
/// digit, and leaves a valid account.
pub proof fn lemma_applied(pre: AccountView, tx: TransactionView, proposal: Option<Balances>)
    requires
        pre.wf(),
        pre.rejection(tx, proposal) is None,
    ensures
        pre.amount_of(tx) is Some,
        pre.balances.follows(pre.amount_of(tx)->0, proposal->0, tx.ty),
        pre.applied(tx, proposal->0).wf(),
        pre.applied(tx, proposal->0).balances.available@ == pre.balances.available@ + delta(
            pre.amount_of(tx)->0,
            plan(tx.ty).0,
        ),
        pre.applied(tx, proposal->0).balances.held@ == pre.balances.held@ + delta(
            pre.amount_of(tx)->0,
            plan(tx.ty).1,
        ),
        pre.applied(tx, proposal->0).balances.total@ == pre.balances.total@ + delta(
            pre.amount_of(tx)->0,
            plan(tx.ty).2,
        ),
{
    let amount = pre.amount_of(tx)->0;
    let after = proposal->0;
    lemma_follows(pre.balances, amount, after, tx.ty);
    let post = pre.applied(tx, after);
    assert forall|id: TxId| #[trigger] post.deposits.contains_key(id) implies post.deposits[id].amount.wf()
        && post.deposits[id].amount@ >= 0 by {
        if id != tx.transaction_id {
            assert(pre.deposits.contains_key(id));
        }
    }
    if tx.ty != TransactionType::Withdrawal {
        lemma_frozen_insert(pre.deposits, tx.transaction_id, post.deposits[tx.transaction_id], 0x1_0000_0000);
    }
}

/// A client's account.
#[derive(Debug)]
pub struct Account {
    client_id: ClientId,
    balances: Balances,
    locked: bool,
    deposits: HashMap<TxId, DepositRecord>,
}

impl View for Account {
    type V = AccountView;

    closed spec fn view(&self) -> AccountView {
        AccountView {
            client_id: self.client_id,
            balances: self.balances,
            locked: self.locked,
            deposits: self.deposits@,
        }
    }
}

impl Clone for Account {
    /// A second account that holds the same.
    fn clone(&self) -> (r: Account)
        ensures
            r@ == self@,
    {
        proof {
            use_type_invariant(self);
        }
        Account {
            client_id: self.client_id,
            balances: self.balances,
            locked: self.locked,
            deposits: self.deposits.clone(),
        }
    }
}

/// How a transaction of kind `ty` changes `available`, `held` and `total`.
fn changes(ty: TransactionType) -> (r: (Change, Change, Change))
    ensures
        r == plan(ty),
{
    match ty {
        TransactionType::Deposit => (Change::Credit, Change::Keep, Change::Credit),
        TransactionType::Withdrawal => (Change::Debit, Change::Keep, Change::Debit),
        TransactionType::Dispute => (Change::Debit, Change::Credit, Change::Keep),
        TransactionType::Resolve => (Change::Credit, Change::Debit, Change::Keep),
        TransactionType::Chargeback => (Change::Keep, Change::Debit, Change::Debit),
    }
}

/// `before` changed by `amount`, as the decimal arithmetic gives it.
fn change_by(before: &Money, amount: &Money, change: Change) -> (r: Option<Money>)
    ensures
        r == moved(*before, *amount, change),
{
    match change {
        Change::Credit => before.checked_add(amount),
        Change::Debit => before.checked_sub(amount),
        Change::Keep => Some(*before),
    }
}

/// Whether `after` is exactly `before` changed by `amount`.
fn check_move(before: &Money, amount: &Money, after: &Money, change: Change) -> (r: bool)
    ensures
        r == moves(*before, *amount, *after, change),
{
    match change {
        Change::Credit => before.adds_up_to(amount, after),
        Change::Debit => after.adds_up_to(amount, before),
        Change::Keep => after.same_as(before),
    }
}

impl Balances {
    /// No funds.
    pub fn zero() -> (r: Balances)
        ensures
            r == AccountView::opened(0).balances,
            r.wf(),
    {
        Balances { available: Money::zero(), held: Money::zero(), total: Money::zero() }
    }

    /// The balances after a transaction of kind `ty` over `amount`, as the
    /// decimal arithmetic gives them. They may be rounded.
    pub fn propose(&self, amount: &Money, ty: TransactionType) -> (r: Option<Balances>)
        ensures
            r == self.proposed(*amount, ty),
    {
        let (a, h, t) = changes(ty);
        let available = change_by(&self.available, amount, a);
        let held = change_by(&self.held, amount, h);
        let total = change_by(&self.total, amount, t);
        match (available, held, total) {
            (Some(available), Some(held), Some(total)) => Some(Balances { available, held, total }),
            _ => None,
        }
    }

    /// The balances that `proposal` holds, where they are exactly these
    /// after a transaction of kind `ty` over `amount`; else `None`.
    pub fn accepted(&self, amount: &Money, proposal: &Option<Balances>, ty: TransactionType) -> (r: Option<
        Balances,
    >)
        ensures
            r == (if self.accepts(*amount, *proposal, ty) {
                *proposal
            } else {
                None
            }),
    {
        match proposal {
            Some(after) => {
                proof {
                    use_type_invariant(amount);
                    use_type_invariant(&after.available);
                    use_type_invariant(&after.held);
                    use_type_invariant(&after.total);
                }
                let (a, h, t) = changes(ty);
                if check_move(&self.available, amount, &after.available, a) && check_move(
                    &self.held,
                    amount,
                    &after.held,
                    h,
                ) && check_move(&self.total, amount, &after.total, t) {
                    Some(*after)
                } else {
                    None
                }
            },
            None => None,
        }
    }
}

/// The error that reports the rejection `why` of `tx`.
fn rejected(why: Rejection, tx: &Transaction) -> (e: TransactionError)
    ensures
        reports(e, why, *tx),
{
    let deposit = match tx.ty() {
        TransactionType::Deposit => true,
        _ => false,
    };
    match why {
        Rejection::Locked => TransactionError::AccountLocked(*tx),
        Rejection::AmountMissing => TransactionError::InvalidTransactionAmount(
            if deposit {
                "Deposit amount is missing".to_string()
            } else {
                "Withdrawal amount is missing".to_string()
            },
        ),
        Rejection::AmountNegative => TransactionError::InvalidTransactionAmount(
            if deposit {
                "Deposit amount is negative".to_string()
            } else {
                "Withdrawal amount is negative".to_string()
            },
        ),
        Rejection::AmountInexact => TransactionError::InvalidTransactionAmount(
            if deposit {
                "Deposit amount cannot be added exactly".to_string()
            } else {
                "Withdrawal amount cannot be subtracted exactly".to_string()
            },
        ),
        Rejection::Duplicate => TransactionError::DuplicateTransaction(*tx),
        Rejection::InsufficientFunds => TransactionError::InsufficientFunds(*tx),
        Rejection::UnknownDeposit => TransactionError::CannotDisputeWithoutDeposit(*tx),
        Rejection::AlreadyDisputed => TransactionError::TransactionBeingDisputed(*tx),
        Rejection::NotDisputed => match tx.ty() {
            TransactionType::Resolve => TransactionError::CannotResolveWithoutDispute(*tx),
            _ => TransactionError::CannotChargebackWithoutDispute(*tx),
        },
        Rejection::ExceedsBalance => TransactionError::InconsistenceBalance(
            match tx.ty() {
                TransactionType::Dispute => "Attempt to dispute more than available".to_string(),
                TransactionType::Resolve => "Attempt to resolve more than held".to_string(),
                _ => "Attempt to chargeback more than held".to_string(),
            },
            *tx,
        ),
        Rejection::Unbalanced => TransactionError::InconsistenceBalance(
            "Disputed amount cannot be moved exactly".to_string(),
            *tx,
        ),
    }
}

/// An account in the making, for a ledger that starts from known
/// balances. The client and the two balances are each `()` until they are
/// set, and only a builder with all three set can build; an account is not
/// locked unless that is set.
pub struct AccountBuilder<C, A, H> {
    pub client_id: C,
    pub available: A,
    pub held: H,
    pub locked: bool,
}

impl<A, H> AccountBuilder<(), A, H> {
    /// Sets the client.
    pub fn client_id(self, client_id: ClientId) -> (r: AccountBuilder<ClientId, A, H>)
        ensures
            r.client_id == client_id,
            r.available == self.available,
            r.held == self.held,
            r.locked == self.locked,
    {
        AccountBuilder { client_id, available: self.available, held: self.held, locked: self.locked }
    }
}

impl<C, H> AccountBuilder<C, (), H> {
    /// Sets the available funds.
    pub fn available<M: Into<Money>>(self, available: M) -> (r: AccountBuilder<C, Money, H>)
        ensures
            r.client_id == self.client_id,
            M::obeys_into_spec() ==> r.available == available.into_spec(),
            r.held == self.held,
            r.locked == self.locked,
    {
        AccountBuilder { client_id: self.client_id, available: available.into(), held: self.held, locked: self.locked }
    }
}

impl<C, A> AccountBuilder<C, A, ()> {
    /// Sets the held funds.
    pub fn held<M: Into<Money>>(self, held: M) -> (r: AccountBuilder<C, A, Money>)
        ensures
            r.client_id == self.client_id,
            r.available == self.available,
            M::obeys_into_spec() ==> r.held == held.into_spec(),
            r.locked == self.locked,
    {
        AccountBuilder { client_id: self.client_id, available: self.available, held: held.into(), locked: self.locked }
    }
}

impl<C, A, H> AccountBuilder<C, A, H> {
    /// Sets whether the account is locked.
    pub fn locked(self, locked: bool) -> (r: AccountBuilder<C, A, H>)
        ensures
            r.client_id == self.client_id,
            r.available == self.available,
            r.held == self.held,
            r.locked == locked,
    {
        AccountBuilder { client_id: self.client_id, available: self.available, held: self.held, locked }
    }
}

impl AccountBuilder<ClientId, Money, Money> {
    /// The total that the decimal arithmetic gives for the two balances,
    /// where it is their exact sum and neither is below zero.
    pub open spec fn total(self) -> Option<Money> {
        match self.available.sum(self.held) {
            Some(total) => if self.available@ >= 0 && self.held@ >= 0 && total.wf() && exact_sum(
                self.available,
                self.held,
                total,
            ) {
                Some(total)
            } else {
                None
            },
            None => None,
        }
    }

    /// The account with the balances that were set and no deposits; `None`
    /// where a balance is below zero or their total is not exact.
    pub fn build(self) -> (r: Option<Account>)
        ensures
            match self.total() {
                Some(total) => r matches Some(account) && account.wf() && account@ == (AccountView {
                    client_id: self.client_id,
                    balances: Balances { available: self.available, held: self.held, total },
                    locked: self.locked,
                    deposits: Map::empty(),
                }),
                None => r is None,
            },
    {
        if self.available.is_negative() || self.held.is_negative() {
            return None;
        }
        match self.available.checked_add(&self.held) {
            Some(total) => if self.available.adds_up_to(&self.held, &total) {
                proof {
                    lemma_frozen_empty(0x1_0000_0000);
                }
                let account = Account {
                    client_id: self.client_id,
                    balances: Balances { available: self.available, held: self.held, total },
                    locked: self.locked,
                    deposits: HashMap::new(),
                };
                assert(account@.deposits =~= Map::empty());
                Some(account)
            } else {
                None
            },
            None => None,
        }
    }
}

impl Account {
    /// A builder with nothing set.
    pub fn builder() -> (r: AccountBuilder<(), (), ()>)
        ensures
            !r.locked,
    {
        AccountBuilder { client_id: (), available: (), held: (), locked: false }
    }

    /// Validity of what the account holds. Every account is valid.
    #[verifier::type_invariant]
    pub open spec fn wf(&self) -> bool {
        self@.wf()
    }

    /// An account of `client_id` without funds or deposits.
    pub fn new(client_id: ClientId) -> (a: Account)
        ensures
            a@ == AccountView::opened(client_id),
            a.wf(),
    {
        proof {
            lemma_opened(client_id);
        }
        let a = Account { client_id, balances: Balances::zero(), locked: false, deposits: HashMap::new() };
        assert(a@.deposits =~= Map::empty());
        a
    }

    /// The client who owns the account.
    pub fn client_id(&self) -> (r: ClientId)
        ensures
            r == self@.client_id,
    {
        self.client_id
    }

    /// The funds that can be withdrawn.
    pub fn available(&self) -> (r: Money)
        ensures
            r == self@.balances.available,
            r@ >= 0,
    {
        proof {
            use_type_invariant(self);
        }
        self.balances.available
    }

    /// The funds frozen by disputes.
    pub fn held(&self) -> (r: Money)
        ensures
            r == self@.balances.held,
            r@ >= 0,
    {
        proof {
            use_type_invariant(self);
        }
        self.balances.held
    }

    /// All funds of the account: `available` and `held` together.
    pub fn total(&self) -> (r: Money)
        ensures
            r == self@.balances.total,
            r@ == self@.balances.available@ + self@.balances.held@,
    {
        proof {
            use_type_invariant(self);
        }
        self.balances.total
    }

    /// Whether a chargeback locked the account.
    pub fn locked(&self) -> (r: bool)
        ensures
            r == self@.locked,
    {
        self.locked
    }

    /// The amount that `tx` is about: its own for a deposit or a withdrawal,
    /// else that of the deposit it names.
    pub fn amount_of(&self, tx: &Transaction) -> (r: Option<Money>)
        ensures
            r == self@.amount_of(tx@),
    {
        match tx.ty() {
            TransactionType::Deposit | TransactionType::Withdrawal => tx.amount(),
            _ => match self.deposits.get(&tx.transaction_id()) {
                Some(record) => Some(record.amount),
                None => None,
            },
        }
    }

    /// The balances after `tx`, as the decimal arithmetic gives them: they
    /// may be rounded. `None` where `tx` has no amount or the arithmetic
    /// overflows.
    pub fn propose(&self, tx: &Transaction) -> (r: Option<Balances>)
        ensures
            r == self@.proposal(tx@),
    {
        match self.amount_of(tx) {
            Some(amount) => self.balances.propose(&amount, *tx.ty()),
            None => None,
        }
    }

    /// The amount and the new balances with which the account accepts `tx`
    /// when `proposal` stands for the balances, or why it turns `tx` down.
    fn verdict(&self, tx: &Transaction, proposal: &Option<Balances>) -> (r: Result<(Money, Balances), Rejection>)
        ensures
            self.wf(),
            match self@.rejection(tx@, *proposal) {
                Some(why) => r == Err::<(Money, Balances), Rejection>(why),
                None => r == Ok::<(Money, Balances), Rejection>((self@.amount_of(tx@)->0, proposal->0)),
            },
    {
        proof {
            use_type_invariant(self);
        }
        if self.locked {
            return Err(Rejection::Locked);
        }
        let id = tx.transaction_id();
        let ty = *tx.ty();
        match ty {
            TransactionType::Deposit => match tx.amount() {
                None => Err(Rejection::AmountMissing),
                Some(a) => if a.is_negative() {
                    Err(Rejection::AmountNegative)
                } else if self.deposits.contains_key(&id) {
                    Err(Rejection::Duplicate)
                } else {
                    match self.balances.accepted(&a, proposal, ty) {
                        Some(after) => Ok((a, after)),
                        None => Err(Rejection::AmountInexact),
                    }
                },
            },
            TransactionType::Withdrawal => match tx.amount() {
                None => Err(Rejection::AmountMissing),
                Some(a) => if a.is_negative() {
                    Err(Rejection::AmountNegative)
                } else if !a.le(&self.balances.available) {
                    Err(Rejection::InsufficientFunds)
                } else {
                    match self.balances.accepted(&a, proposal, ty) {
                        Some(after) => Ok((a, after)),
                        None => Err(Rejection::AmountInexact),
                    }
                },
            },
            TransactionType::Dispute => match self.deposits.get(&id) {
                None => Err(Rejection::UnknownDeposit),
                Some(record) => if record.disputed {
                    Err(Rejection::AlreadyDisputed)
                } else if !record.amount.le(&self.balances.available) {
                    Err(Rejection::ExceedsBalance)
                } else {
                    match self.balances.accepted(&record.amount, proposal, ty) {
                        Some(after) => Ok((record.amount, after)),
                        None => Err(Rejection::Unbalanced),
                    }
                },
            },
            TransactionType::Resolve | TransactionType::Chargeback => match self.deposits.get(&id) {
                None => Err(Rejection::NotDisputed),
                Some(record) => if !record.disputed {
                    Err(Rejection::NotDisputed)
                } else if !record.amount.le(&self.balances.held) {
                    Err(Rejection::ExceedsBalance)
                } else {
                    match self.balances.accepted(&record.amount, proposal, ty) {
                        Some(after) => Ok((record.amount, after)),
                        None => Err(Rejection::Unbalanced),
                    }
                },
            },
        }
    }

    /// Why the account turns `tx` down when `proposal` stands for its new
    /// balances; `None` where it accepts `tx`.
    pub fn rejection(&self, tx: &Transaction, proposal: &Option<Balances>) -> (r: Option<Rejection>)
        ensures
            r == self@.rejection(tx@, *proposal),
            self.wf(),
    {
        match self.verdict(tx, proposal) {
            Ok(_) => None,
            Err(why) => Some(why),
        }
    }

    /// Applies `tx` with the new balances that `proposal` holds, or turns it
    /// down and leaves the account as it was. A proposal is taken only if it
    /// is exact, so an accepted transaction moves the balances by its amount
    /// to the last digit.
    pub fn settle(&mut self, tx: &Transaction, proposal: Option<Balances>) -> (res: Result<(), TransactionError>)
        ensures
            old(self).wf(),
            final(self).wf(),
            final(self)@ == old(self)@.step(tx@, proposal).0,
            match old(self)@.step(tx@, proposal).1 {
                Some(why) => res matches Err(e) && reports(e, why, *tx) && *final(self) == *old(self),
                None => res is Ok,
            },
    {
        match self.verdict(tx, &proposal) {
            Err(why) => Err(rejected(why, tx)),
            Ok((amount, after)) => {
                proof {
                    lemma_applied(self@, tx@, proposal);
                }
                let id = tx.transaction_id();
                let mut taken = Account::new(self.client_id);
                std::mem::swap(self, &mut taken);
                let Account { client_id, balances: _, locked, mut deposits } = taken;
                let locked = match tx.ty() {
                    TransactionType::Deposit => {
                        deposits.insert(id, DepositRecord { amount, disputed: false });
                        locked
                    },
                    TransactionType::Withdrawal => locked,
                    TransactionType::Dispute => {
                        deposits.insert(id, DepositRecord { amount, disputed: true });
                        locked
                    },
                    TransactionType::Resolve => {
                        deposits.insert(id, DepositRecord { amount, disputed: false });
                        locked
                    },
                    TransactionType::Chargeback => {
                        deposits.insert(id, DepositRecord { amount, disputed: false });
                        true
                    },
                };
                *self = Account { client_id, balances: after, locked, deposits };
                Ok(())
            },
        }
    }

    /// Applies `tx` to the account, or turns it down and leaves the account
    /// as it was. The new balances come from the decimal arithmetic and are
    /// taken only if they are exact.
    pub fn process(&mut self, tx: &Transaction) -> (res: Result<(), TransactionError>)
        ensures
            old(self).wf(),
            final(self).wf(),
            final(self)@ == old(self)@.step(tx@, old(self)@.proposal(tx@)).0,
            match old(self)@.step(tx@, old(self)@.proposal(tx@)).1 {
                Some(why) => res matches Err(e) && reports(e, why, *tx) && *final(self) == *old(self),
                None => res is Ok,
            },
    {
        let proposal = self.propose(tx);
        self.settle(tx, proposal)
    }
}

} // verus!
