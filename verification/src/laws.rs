//! What holds of the account rules, whatever the transactions and whatever
//! the decimal arithmetic proposes.

use crate::account::{AccountView, Balances, Rejection};
use crate::account::{lemma_applied, lemma_frozen_covers};
use crate::transaction::{TransactionType, TransactionView};
use vstd::prelude::*;

verus! {

impl AccountView {
    /// The account after the transactions `txs`, one after the other, each
    /// with the balances that the decimal arithmetic gives for it.
    pub open spec fn after(self, txs: Seq<TransactionView>) -> AccountView
        decreases txs.len(),
    {
        if txs.len() == 0 {
            self
        } else {
            let before = self.after(txs.drop_last());
            before.step(txs.last(), before.proposal(txs.last())).0
        }
    }

    /// What `tx` brings into the account: its amount if it is a deposit
    /// that the account accepts, its amount taken off if it is a
    /// withdrawal or a chargeback that the account accepts, and nothing
    /// else.
    pub open spec fn flow(self, tx: TransactionView) -> int {
        if self.rejection(tx, self.proposal(tx)) is Some {
            0
        } else {
            match tx.ty {
                TransactionType::Deposit => (self.amount_of(tx)->0)@,
                TransactionType::Withdrawal | TransactionType::Chargeback => -(self.amount_of(tx)->0)@,
                TransactionType::Dispute | TransactionType::Resolve => 0,
            }
        }
    }

    /// What the transactions `txs` bring into the account, one after the other.
    pub open spec fn net_flow(self, txs: Seq<TransactionView>) -> int
        decreases txs.len(),
    {
        if txs.len() == 0 {
            0
        } else {
            self.net_flow(txs.drop_last()) + self.after(txs.drop_last()).flow(txs.last())
        }
    }
}

/// A valid account stays valid through any transaction, accepted or not,
/// whatever new balances are proposed: no balance falls below zero, and
/// `total` is `available` and `held` together.
pub proof fn law_step_keeps_balances_valid(pre: AccountView, tx: TransactionView, proposal: Option<Balances>)
    requires
        pre.wf(),
    ensures
        pre.step(tx, proposal).0.wf(),
        pre.step(tx, proposal).0.balances.available@ >= 0,
        pre.step(tx, proposal).0.balances.held@ >= 0,
        pre.step(tx, proposal).0.balances.total@ == pre.step(tx, proposal).0.balances.available@ + pre.step(
            tx,
            proposal,
        ).0.balances.held@,
{
    if pre.rejection(tx, proposal) is None {
        lemma_applied(pre, tx, proposal);
    }
}

/// A valid account stays valid through any sequence of transactions.
pub proof fn law_balances_valid_after_any_sequence(pre: AccountView, txs: Seq<TransactionView>)
    requires
        pre.wf(),
    ensures
        pre.after(txs).wf(),
        pre.after(txs).balances.available@ >= 0,
        pre.after(txs).balances.held@ >= 0,
        pre.after(txs).balances.total@ == pre.after(txs).balances.available@ + pre.after(txs).balances.held@,
    decreases txs.len(),
{
    if txs.len() > 0 {
        law_balances_valid_after_any_sequence(pre, txs.drop_last());
        let before = pre.after(txs.drop_last());
        law_step_keeps_balances_valid(before, txs.last(), before.proposal(txs.last()));
    }
}

/// After any sequence of transactions, `total` is what it was and what
/// came in: the deposits that were accepted, less the withdrawals and the
/// chargebacks that were accepted, to the last digit.
pub proof fn law_total_is_what_came_in(pre: AccountView, txs: Seq<TransactionView>)
    requires
        pre.wf(),
    ensures
        pre.after(txs).balances.total@ == pre.balances.total@ + pre.net_flow(txs),
    decreases txs.len(),
{
    if txs.len() > 0 {
        law_total_is_what_came_in(pre, txs.drop_last());
        law_balances_valid_after_any_sequence(pre, txs.drop_last());
        let before = pre.after(txs.drop_last());
        let tx = txs.last();
        if before.rejection(tx, before.proposal(tx)) is None {
            lemma_applied(before, tx, before.proposal(tx));
        }
    }
}

/// A transaction that is turned down leaves the account as it was.
pub proof fn law_rejection_changes_nothing(pre: AccountView, tx: TransactionView, proposal: Option<Balances>)
    requires
        pre.step(tx, proposal).1 is Some,
    ensures
        pre.step(tx, proposal).0 == pre,
{
}

/// A deposit that was accepted is turned down as a duplicate when it comes
/// again, and the account stays as the first one left it.
pub proof fn law_second_deposit_is_duplicate(
    pre: AccountView,
    tx: TransactionView,
    first: Option<Balances>,
    second: Option<Balances>,
)
    requires
        pre.wf(),
        tx.ty == TransactionType::Deposit,
        pre.step(tx, first).1 is None,
    ensures
        pre.step(tx, first).0.step(tx, second).1 == Some(Rejection::Duplicate),
        pre.step(tx, first).0.step(tx, second).0 == pre.step(tx, first).0,
{
    lemma_applied(pre, tx, first);
}

/// On an account that is not locked, a dispute of a deposit that was never
/// accepted is turned down as such, and the account stays as it was.
pub proof fn law_dispute_needs_deposit(pre: AccountView, tx: TransactionView, proposal: Option<Balances>)
    requires
        !pre.locked,
        tx.ty == TransactionType::Dispute,
        !pre.deposits.contains_key(tx.transaction_id),
    ensures
        pre.step(tx, proposal).1 == Some(Rejection::UnknownDeposit),
        pre.step(tx, proposal).0 == pre,
{
}

/// A dispute and the resolution that follows it bring `available`, `held`
/// and `total` back to what they were, to the last digit, and the deposit
/// back to undisputed.
pub proof fn law_dispute_then_resolve_restores(
    pre: AccountView,
    dispute: TransactionView,
    resolve: TransactionView,
    first: Option<Balances>,
    second: Option<Balances>,
)
    requires
        pre.wf(),
        dispute.ty == TransactionType::Dispute,
        resolve.ty == TransactionType::Resolve,
        resolve.transaction_id == dispute.transaction_id,
        pre.step(dispute, first).1 is None,
        pre.step(dispute, first).0.step(resolve, second).1 is None,
    ensures
        ({
            let post = pre.step(dispute, first).0.step(resolve, second).0;
            &&& post.balances.available@ == pre.balances.available@
            &&& post.balances.held@ == pre.balances.held@
            &&& post.balances.total@ == pre.balances.total@
            &&& post.deposits == pre.deposits
            &&& post.locked == pre.locked
            &&& post.client_id == pre.client_id
        }),
{
    let mid = pre.step(dispute, first).0;
    let post = mid.step(resolve, second).0;
    lemma_applied(pre, dispute, first);
    lemma_applied(mid, resolve, second);
    assert(post.deposits =~= pre.deposits);
}

/// A chargeback that is accepted takes the disputed amount out of `held`
/// and out of `total`, leaves `available` alone and locks the account.
pub proof fn law_chargeback_removes_and_locks(pre: AccountView, tx: TransactionView, proposal: Option<Balances>)
    requires
        pre.wf(),
        tx.ty == TransactionType::Chargeback,
        pre.step(tx, proposal).1 is None,
    ensures
        ({
            let post = pre.step(tx, proposal).0;
            let amount = pre.deposits[tx.transaction_id].amount;
            &&& pre.disputed(tx.transaction_id)
            &&& post.locked
            &&& post.balances.held@ == pre.balances.held@ - amount@
            &&& post.balances.total@ == pre.balances.total@ - amount@
            &&& post.balances.available@ == pre.balances.available@
        }),
{
    lemma_applied(pre, tx, proposal);
}

/// What a deposit under dispute keeps frozen is held: a resolution or a
/// chargeback of it is never turned down for want of held funds.
pub proof fn law_held_covers_disputes(pre: AccountView, tx: TransactionView, proposal: Option<Balances>)
    requires
        pre.wf(),
        pre.disputed(tx.transaction_id),
        tx.ty == TransactionType::Resolve || tx.ty == TransactionType::Chargeback,
    ensures
        pre.deposits[tx.transaction_id].amount@ <= pre.balances.held@,
        pre.step(tx, proposal).1 != Some(Rejection::ExceedsBalance),
{
    lemma_frozen_covers(pre.deposits, tx.transaction_id, 0x1_0000_0000);
}

/// A locked account turns every transaction down as locked and stays as it is.
pub proof fn law_locked_rejects_everything(pre: AccountView, tx: TransactionView, proposal: Option<Balances>)
    requires
        pre.locked,
    ensures
        pre.step(tx, proposal).1 == Some(Rejection::Locked),
        pre.step(tx, proposal).0 == pre,
{
}

/// After a dispute and the chargeback that follows it, the disputed amount
/// is gone from the account for good: `held` is what it was before the
/// dispute, `available` and `total` are less by the amount, and every later
/// transaction is turned down as locked.
pub proof fn law_dispute_then_chargeback(
    pre: AccountView,
    dispute: TransactionView,
    chargeback: TransactionView,
    first: Option<Balances>,
    second: Option<Balances>,
    later: TransactionView,
    third: Option<Balances>,
)
    requires
        pre.wf(),
        dispute.ty == TransactionType::Dispute,
        chargeback.ty == TransactionType::Chargeback,
        chargeback.transaction_id == dispute.transaction_id,
        pre.step(dispute, first).1 is None,
        pre.step(dispute, first).0.step(chargeback, second).1 is None,
    ensures
        ({
            let post = pre.step(dispute, first).0.step(chargeback, second).0;
            let amount = pre.deposits[dispute.transaction_id].amount;
            &&& post.locked
            &&& post.balances.held@ == pre.balances.held@
            &&& post.balances.available@ == pre.balances.available@ - amount@
            &&& post.balances.total@ == pre.balances.total@ - amount@
            &&& post.step(later, third).1 == Some(Rejection::Locked)
            &&& post.step(later, third).0 == post
        }),
{
    let mid = pre.step(dispute, first).0;
    lemma_applied(pre, dispute, first);
    lemma_applied(mid, chargeback, second);
}

} // verus!
