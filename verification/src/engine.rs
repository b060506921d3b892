//! The payment engine: all accounts, behind locks, so that many threads can
//! send transactions at once.
//!
//! A registry maps each client to the lock that holds its account. The
//! registry's own lock is taken for writing only to add an account; a
//! transaction then holds nothing but the lock of the one account it is
//! for. Transactions for one client go one after the other, those for
//! different clients side by side.

use crate::account::{reports, Account, AccountView};
use crate::errors::TransactionError;
use crate::summary::TransactionResultSummary;
use crate::transaction::{ClientId, Transaction};
use std::collections::HashMap;
use std::sync::Arc;
use vstd::prelude::*;
use vstd::rwlock::{RwLock, RwLockPredicate};
use vstd::std_specs::hash::*;

verus! {

broadcast use group_hash_axioms;

/// What processes transactions one by one and reports the accounts.
pub trait PaymentEngine {
    /// Applies `transaction` to the account of its client, or turns it down.
    fn process(&mut self, transaction: &Transaction) -> Result<(), TransactionError>;

    /// One report for each account that the engine knows.
    fn summary(&self) -> Result<Vec<TransactionResultSummary>, TransactionError>;
}

/// What the lock of one account admits: a valid account of that client.
struct AccountGuard {
    client_id: ClientId,
}

impl RwLockPredicate<Account> for AccountGuard {
    closed spec fn inv(self, account: Account) -> bool {
        account.wf() && account@.client_id == self.client_id
    }
}

/// The accounts in the order in which they were opened, and where each client's is.
struct Registry {
    cells: Vec<Arc<RwLock<Account, AccountGuard>>>,
    index: HashMap<ClientId, usize>,
}

impl Registry {
    /// The client whose account the `i`-th lock holds.
    spec fn owner(self, i: int) -> ClientId {
        self.cells@[i].pred().client_id
    }

    /// The index leads each client to the lock of its account, and every lock is some client's.
    spec fn wf(self) -> bool {
        &&& forall|k: ClientId| #[trigger]
            self.index@.contains_key(k) ==> self.index@[k] < self.cells@.len() && self.owner(self.index@[k] as int)
                == k
        &&& forall|i: int|
            0 <= i < self.cells@.len() ==> self.index@.contains_key(#[trigger] self.owner(i)) && self.index@[self.owner(
                i,
            )] == i
    }
}

impl Registry {
    /// The lock that holds the account of `client_id`: the one to which
    /// the index leads, if the registry knows the client.
    fn lookup(&self, client_id: ClientId) -> (r: Option<Arc<RwLock<Account, AccountGuard>>>)
        requires
            self.wf(),
        ensures
            r is Some <==> self.index@.contains_key(client_id),
            r matches Some(cell) ==> cell == self.cells@[self.index@[client_id] as int] && cell.pred() == (
            AccountGuard { client_id }),
    {
        match self.index.get(&client_id) {
            Some(i) => Some(share(&self.cells[*i])),
            None => None,
        }
    }

    /// One report for each account, in the order in which the accounts
    /// were opened, each read under the account's lock: the `i`-th report
    /// is that of the `i`-th account's client and shows some valid account.
    fn reports(&self) -> (reports: Vec<TransactionResultSummary>)
        requires
            self.wf(),
        ensures
            reports@.len() == self.cells@.len(),
            forall|i: int|
                0 <= i < reports@.len() ==> (#[trigger] reports@[i]).client == self.owner(i)
                    && reports@[i].shows_some_account(),
    {
        let mut reports: Vec<TransactionResultSummary> = Vec::new();
        let mut i: usize = 0;
        while i < self.cells.len()
            invariant
                self.wf(),
                i <= self.cells@.len(),
                reports@.len() == i,
                forall|k: int|
                    0 <= k < i ==> (#[trigger] reports@[k]).client == self.owner(k)
                        && reports@[k].shows_some_account(),
            decreases self.cells@.len() - i,
        {
            let reader = self.cells[i].acquire_read();
            let report = TransactionResultSummary::of(reader.borrow());
            proof {
                assert(report.shows(reader@@));
            }
            reader.release_read();
            reports.push(report);
            i = i + 1;
        }
        reports
    }
}

/// What the lock of the registry admits.
struct RegistryGuard {}

impl RwLockPredicate<Registry> for RegistryGuard {
    closed spec fn inv(self, registry: Registry) -> bool {
        registry.wf()
    }
}

/// A second handle to what `a` points to, by `Arc::clone`.
#[verifier::external_body]
fn share<T>(a: &Arc<T>) -> (r: Arc<T>)
    ensures
        r == *a,
{
    Arc::clone(a)
}

/// A payment engine that keeps its accounts in memory and can be shared by threads.
pub struct MemoryThreadSafePaymentEngine {
    registry: Arc<RwLock<Registry, RegistryGuard>>,
}

impl MemoryThreadSafePaymentEngine {
    #[verifier::type_invariant]
    spec fn inv(self) -> bool {
        self.registry.pred() == (RegistryGuard {  })
    }

    /// An engine without accounts.
    pub fn new() -> (engine: MemoryThreadSafePaymentEngine) {
        let registry = Registry { cells: Vec::new(), index: HashMap::new() };
        MemoryThreadSafePaymentEngine { registry: Arc::new(RwLock::new(registry, Ghost(RegistryGuard {  }))) }
    }

    /// The lock that holds the account of `client_id`, if the engine knows the client.
    fn find(&self, client_id: ClientId) -> (r: Option<Arc<RwLock<Account, AccountGuard>>>)
        ensures
            r matches Some(cell) ==> cell.pred() == (AccountGuard { client_id }),
    {
        proof {
            use_type_invariant(self);
        }
        let handle = self.registry.acquire_read();
        let found = handle.borrow().lookup(client_id);
        handle.release_read();
        found
    }

    /// The lock that holds the account of `client_id`; opens the account
    /// if no thread has done so yet.
    fn open(&self, client_id: ClientId) -> (cell: Arc<RwLock<Account, AccountGuard>>)
        ensures
            cell.pred() == (AccountGuard { client_id }),
    {
        proof {
            use_type_invariant(self);
        }
        let (mut registry, handle) = self.registry.acquire_write();
        let cell = match registry.lookup(client_id) {
            Some(cell) => cell,
            None => {
                let cell = Arc::new(RwLock::new(Account::new(client_id), Ghost(AccountGuard { client_id })));
                let n = registry.cells.len();
                let ghost before = registry;
                registry.cells.push(share(&cell));
                registry.index.insert(client_id, n);
                proof {
                    assert forall|i: int| 0 <= i < registry.cells@.len() implies registry.index@.contains_key(
                        #[trigger] registry.owner(i),
                    ) && registry.index@[registry.owner(i)] == i by {
                        if i < n {
                            assert(registry.owner(i) == before.owner(i));
                        }
                    }
                    assert forall|k: ClientId| #[trigger] registry.index@.contains_key(k) implies registry.index@[k]
                        < registry.cells@.len() && registry.owner(registry.index@[k] as int) == k by {
                        if k != client_id {
                            assert(before.index@.contains_key(k));
                            assert(registry.owner(registry.index@[k] as int) == before.owner(before.index@[k] as int));
                        }
                    }
                }
                cell
            },
        };
        handle.release_write(registry);
        cell
    }
}

impl Default for MemoryThreadSafePaymentEngine {
    /// An engine without accounts.
    fn default() -> (engine: MemoryThreadSafePaymentEngine) {
        MemoryThreadSafePaymentEngine::new()
    }
}

impl Clone for MemoryThreadSafePaymentEngine {
    /// A second handle to the same accounts.
    fn clone(&self) -> (engine: MemoryThreadSafePaymentEngine)
        ensures
            engine == *self,
    {
        proof {
            use_type_invariant(self);
        }
        MemoryThreadSafePaymentEngine { registry: share(&self.registry) }
    }
}

impl PaymentEngine for MemoryThreadSafePaymentEngine {
    /// Applies `transaction` to the account of its client, which it opens
    /// if need be, under that account's lock. Other threads may have
    /// changed the account before, so the contract speaks of the account
    /// as this call found it: some valid account of the client, by whose
    /// rules the transaction was accepted or turned down.
    fn process(&mut self, transaction: &Transaction) -> (res: Result<(), TransactionError>)
        ensures
            exists|found: AccountView|
                {
                    &&& found.wf()
                    &&& found.client_id == transaction@.client_id
                    &&& match (#[trigger] found.step(transaction@, found.proposal(transaction@))).1 {
                        Some(why) => res matches Err(e) && reports(e, why, *transaction),
                        None => res is Ok,
                    }
                },
    {
        let client_id = transaction.client_id();
        let cell = match self.find(client_id) {
            Some(cell) => cell,
            None => self.open(client_id),
        };
        let (mut account, handle) = cell.acquire_write();
        let ghost found = account@;
        let res = account.process(transaction);
        handle.release_write(account);
        res
    }

    /// One report for each account, in the order in which the accounts
    /// were opened, each read under the account's lock: a report shows
    /// some valid account of its client, and no client comes twice.
    fn summary(&self) -> (res: Result<Vec<TransactionResultSummary>, TransactionError>)
        ensures
            res matches Ok(reports) && {
                &&& forall|i: int| 0 <= i < reports@.len() ==> (#[trigger] reports@[i]).shows_some_account()
                &&& forall|i: int, j: int|
                    0 <= i < j < reports@.len() ==> (#[trigger] reports@[i]).client != (#[trigger] reports@[j]).client
            },
    {
        proof {
            use_type_invariant(self);
        }
        let handle = self.registry.acquire_read();
        let registry = handle.borrow();
        let reports = registry.reports();
        proof {
            assert forall|a: int, b: int| 0 <= a < b < reports@.len() implies (#[trigger] reports@[a]).client != (
            #[trigger] reports@[b]).client by {
                assert(registry.index@[registry.owner(a)] == a);
                assert(registry.index@[registry.owner(b)] == b);
            }
        }
        handle.release_read();
        Ok(reports)
    }
}

} // verus!
