//! The accounts of all clients in the hands of one owner: a ledger that is
//! not shared, and whose contracts therefore say to the last account what a
//! transaction does.

use crate::account::{lemma_applied, lemma_opened, reports, Account, AccountView, Rejection};
use crate::engine::PaymentEngine;
use crate::errors::TransactionError;
use crate::summary::TransactionResultSummary;
use crate::transaction::{ClientId, Transaction, TransactionView};
use std::collections::HashMap;
use vstd::prelude::*;
use vstd::std_specs::hash::*;

verus! {

broadcast use group_hash_axioms;

/// Whether one of `accounts` is the account of `client`.
pub open spec fn knows(accounts: Seq<AccountView>, client: ClientId) -> bool {
    exists|i: int| 0 <= i < accounts.len() && (#[trigger] accounts[i]).client_id == client
}

/// Where among `accounts` the account of `client` is, if it is there.
pub open spec fn place(accounts: Seq<AccountView>, client: ClientId) -> int {
    choose|i: int| 0 <= i < accounts.len() && (#[trigger] accounts[i]).client_id == client
}

/// `accounts`, with a new account of `client` at the end if there was none.
pub open spec fn opened(accounts: Seq<AccountView>, client: ClientId) -> Seq<AccountView> {
    if knows(accounts, client) {
        accounts
    } else {
        accounts.push(AccountView::opened(client))
    }
}

/// The accounts after `tx` went to the account of its client, opened if
/// need be, and why that account turned `tx` down, if it did.
pub open spec fn routed(accounts: Seq<AccountView>, tx: TransactionView) -> (Seq<AccountView>, Option<Rejection>) {
    let all = opened(accounts, tx.client_id);
    let i = place(all, tx.client_id);
    let (after, why) = all[i].step(tx, all[i].proposal(tx));
    (all.update(i, after), why)
}

/// Valid accounts, no two of one client.
pub open spec fn valid(accounts: Seq<AccountView>) -> bool {
    &&& forall|i: int| 0 <= i < accounts.len() ==> (#[trigger] accounts[i]).wf()
    &&& forall|i: int, j: int|
        0 <= i < j < accounts.len() ==> (#[trigger] accounts[i]).client_id != (#[trigger] accounts[j]).client_id
}

/// The reports of `accounts`, in their order.
pub open spec fn summaries(accounts: Seq<AccountView>) -> Seq<TransactionResultSummary> {
    accounts.map_values(|a: AccountView| TransactionResultSummary::summarized(a))
}

/// Among valid accounts, the account of a client is where any account of that client is.
pub proof fn lemma_place(accounts: Seq<AccountView>, i: int)
    requires
        valid(accounts),
        0 <= i < accounts.len(),
    ensures
        knows(accounts, accounts[i].client_id),
        place(accounts, accounts[i].client_id) == i,
{
    let j = place(accounts, accounts[i].client_id);
    assert(0 <= j < accounts.len() && accounts[j].client_id == accounts[i].client_id);
}

/// Routing a transaction keeps the accounts valid, opens at most one
/// account and leaves the accounts of other clients as they were.
pub proof fn law_routing(accounts: Seq<AccountView>, tx: TransactionView)
    requires
        valid(accounts),
    ensures
        valid(routed(accounts, tx).0),
        knows(routed(accounts, tx).0, tx.client_id),
        routed(accounts, tx).0.len() == accounts.len() + (if knows(accounts, tx.client_id) {
            0int
        } else {
            1int
        }),
        forall|i: int|
            0 <= i < accounts.len() && (#[trigger] accounts[i]).client_id != tx.client_id ==> routed(accounts, tx).0[i]
                == accounts[i],
{
    let all = opened(accounts, tx.client_id);
    if !knows(accounts, tx.client_id) {
        lemma_opened(tx.client_id);
        assert(all[accounts.len() as int].client_id == tx.client_id);
        assert forall|a: int, b: int| 0 <= a < b < all.len() implies (#[trigger] all[a]).client_id != (
        #[trigger] all[b]).client_id by {
            if b == accounts.len() {
                assert(accounts[a].client_id != tx.client_id);
            } else {
                assert(accounts[a].client_id != accounts[b].client_id);
            }
        }
    }
    assert(valid(all));
    let i = place(all, tx.client_id);
    assert(0 <= i < all.len() && all[i].client_id == tx.client_id);
    let after = all[i].step(tx, all[i].proposal(tx)).0;
    if all[i].rejection(tx, all[i].proposal(tx)) is None {
        lemma_applied(all[i], tx, all[i].proposal(tx));
    }
    let end = all.update(i, after);
    assert(end[i].client_id == tx.client_id);
    assert forall|a: int, b: int| 0 <= a < b < end.len() implies (#[trigger] end[a]).client_id != (
    #[trigger] end[b]).client_id by {
        assert(all[a].client_id != all[b].client_id);
    }
}

/// The accounts of all clients, in the order in which they were opened.
pub struct Ledger {
    accounts: Vec<Account>,
    index: HashMap<ClientId, usize>,
}

impl View for Ledger {
    type V = Seq<AccountView>;

    closed spec fn view(&self) -> Seq<AccountView> {
        self.accounts@.map_values(|a: Account| a@)
    }
}

impl Ledger {
    #[verifier::type_invariant]
    spec fn inv(self) -> bool {
        &&& valid(self@)
        &&& forall|k: ClientId| #[trigger]
            self.index@.contains_key(k) ==> self.index@[k] < self.accounts@.len() && self.accounts@[self.index@[k] as int]@.client_id
                == k
        &&& forall|i: int|
            0 <= i < self.accounts@.len() ==> self.index@.contains_key((#[trigger] self.accounts@[i])@.client_id)
                && self.index@[self.accounts@[i]@.client_id] == i
    }

    /// A ledger without accounts.
    pub fn new() -> (ledger: Ledger)
        ensures
            ledger@ == Seq::<AccountView>::empty(),
    {
        let ledger = Ledger { accounts: Vec::new(), index: HashMap::new() };
        assert(ledger@ =~= Seq::<AccountView>::empty());
        ledger
    }

    /// The number of accounts.
    pub fn len(&self) -> (n: usize)
        ensures
            n == self@.len(),
            valid(self@),
    {
        proof {
            use_type_invariant(self);
        }
        self.accounts.len()
    }
}

impl Default for Ledger {
    /// A ledger without accounts.
    fn default() -> (ledger: Ledger) {
        Ledger::new()
    }
}

impl PaymentEngine for Ledger {
    /// Applies `transaction` to the account of its client, which it opens
    /// if need be, and hands on what the account answers.
    fn process(&mut self, transaction: &Transaction) -> (res: Result<(), TransactionError>)
        ensures
            valid(old(self)@),
            valid(final(self)@),
            final(self)@ == routed(old(self)@, transaction@).0,
            match routed(old(self)@, transaction@).1 {
                Some(why) => res matches Err(e) && reports(e, why, *transaction),
                None => res is Ok,
            },
    {
        proof {
            use_type_invariant(&*self);
        }
        let ghost before = self@;
        let client = transaction.client_id();
        let mut taken = Ledger::new();
        std::mem::swap(self, &mut taken);
        let Ledger { mut accounts, mut index } = taken;
        let i = match index.get(&client) {
            Some(i) => {
                proof {
                    lemma_place(before, *i as int);
                }
                *i
            },
            None => {
                let n = accounts.len();
                let ghost old_accounts = accounts@;
                let ghost old_index = index@;
                accounts.push(Account::new(client));
                index.insert(client, n);
                proof {
                    let all = accounts@.map_values(|a: Account| a@);
                    assert(!knows(before, client)) by {
                        if knows(before, client) {
                            let j = place(before, client);
                            assert(old_index.contains_key(old_accounts[j]@.client_id));
                        }
                    }
                    assert(all =~= opened(before, client));
                    assert forall|a: int, b: int| 0 <= a < b < all.len() implies (#[trigger] all[a]).client_id != (
                    #[trigger] all[b]).client_id by {
                        if b == n {
                            assert(old_index.contains_key(old_accounts[a]@.client_id));
                        } else {
                            assert(before[a].client_id != before[b].client_id);
                        }
                    }
                    assert(all[n as int].wf());
                    assert(valid(all));
                    lemma_place(all, n as int);
                }
                n
            },
        };
        let ghost all = accounts@.map_values(|a: Account| a@);
        let ghost all_accounts = accounts@;
        let ghost all_index = index@;
        assert(all == opened(before, client) && place(all, client) == i && valid(all));
        let res = accounts[i].process(transaction);
        proof {
            let end = accounts@.map_values(|a: Account| a@);
            law_routing(before, transaction@);
            assert(end =~= routed(before, transaction@).0);
            assert forall|k: ClientId| #[trigger] index@.contains_key(k) implies index@[k] < accounts@.len()
                && accounts@[index@[k] as int]@.client_id == k by {
                assert(all_accounts[index@[k] as int]@.client_id == k);
                assert(end[index@[k] as int].client_id == all[index@[k] as int].client_id);
            }
            assert forall|j: int| 0 <= j < accounts@.len() implies index@.contains_key(
                (#[trigger] accounts@[j])@.client_id,
            ) && index@[accounts@[j]@.client_id] == j by {
                assert(end[j].client_id == all[j].client_id);
                assert(all_index.contains_key(all_accounts[j]@.client_id));
            }
        }
        *self = Ledger { accounts, index };
        res
    }

    /// One report for each account, in the order in which the accounts were opened.
    fn summary(&self) -> (res: Result<Vec<TransactionResultSummary>, TransactionError>)
        ensures
            res matches Ok(reports) && reports@ == summaries(self@),
    {
        let mut reports: Vec<TransactionResultSummary> = Vec::new();
        let mut i: usize = 0;
        while i < self.accounts.len()
            invariant
                i <= self.accounts@.len(),
                reports@ == summaries(self@.subrange(0, i as int)),
            decreases self.accounts@.len() - i,
        {
            reports.push(TransactionResultSummary::of(&self.accounts[i]));
            proof {
                assert(self@.subrange(0, i + 1) =~= self@.subrange(0, i as int).push(self@[i as int]));
                assert(reports@ =~= summaries(self@.subrange(0, i + 1)));
            }
            i = i + 1;
        }
        proof {
            assert(self@.subrange(0, i as int) =~= self@);
        }
        Ok(reports)
    }
}

} // verus!
