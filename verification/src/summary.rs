//! The record that reports an account: its balances with at most four
//! fractional digits.

use crate::account::{Account, AccountView};
use crate::money::{lemma_rounded, Money};
use crate::transaction::ClientId;
use vstd::prelude::*;
use vstd::std_specs::cmp::PartialEqSpecImpl;
use vstd::std_specs::convert::FromSpecImpl;

verus! {

/// The number of fractional digits that a report keeps.
pub const REPORT_DIGITS: u32 = 4;

/// The report of one account.
#[derive(Clone, Copy, Debug)]
pub struct TransactionResultSummary {
    /// The client who owns the account.
    pub client: ClientId,
    /// The funds that can be withdrawn, rounded.
    pub available: Money,
    /// The funds frozen by disputes, rounded.
    pub held: Money,
    /// All funds of the account, rounded.
    pub total: Money,
    /// Whether the account is locked.
    pub locked: bool,
}

impl TransactionResultSummary {
    /// The report of `account`: each balance rounded half to even to four fractional digits.
    pub open spec fn summarized(account: AccountView) -> TransactionResultSummary {
        TransactionResultSummary {
            client: account.client_id,
            available: account.balances.available.rounded(REPORT_DIGITS as nat),
            held: account.balances.held.rounded(REPORT_DIGITS as nat),
            total: account.balances.total.rounded(REPORT_DIGITS as nat),
            locked: account.locked,
        }
    }

    /// Whether this is the report of the valid account `account`.
    pub open spec fn shows(self, account: AccountView) -> bool {
        account.wf() && self == Self::summarized(account)
    }

    /// Whether this is the report of some valid account.
    pub open spec fn shows_some_account(self) -> bool {
        exists|account: AccountView| self.shows(account)
    }

    /// The report of `account`.
    pub fn of(account: &Account) -> (r: TransactionResultSummary)
        ensures
            r == Self::summarized(account@),
    {
        TransactionResultSummary {
            client: account.client_id(),
            available: account.available().round_dp(REPORT_DIGITS),
            held: account.held().round_dp(REPORT_DIGITS),
            total: account.total().round_dp(REPORT_DIGITS),
            locked: account.locked(),
        }
    }
}

/// The report of a valid account holds valid amounts, none below zero, and
/// the account's own balances where these have no more than four
/// fractional digits.
pub proof fn law_report(account: AccountView)
    requires
        account.wf(),
    ensures
        ({
            let report = TransactionResultSummary::summarized(account);
            let digits = REPORT_DIGITS as nat;
            &&& report.client == account.client_id
            &&& report.locked == account.locked
            &&& report.available.wf() && report.available@ >= 0
            &&& report.held.wf() && report.held@ >= 0
            &&& report.total.wf() && report.total@ >= 0
            &&& account.balances.available.spec_scale() <= digits ==> report.available == account.balances.available
            &&& account.balances.held.spec_scale() <= digits ==> report.held == account.balances.held
            &&& account.balances.total.spec_scale() <= digits ==> report.total == account.balances.total
        }),
{
    lemma_rounded(account.balances.available, REPORT_DIGITS as nat);
    lemma_rounded(account.balances.held, REPORT_DIGITS as nat);
    lemma_rounded(account.balances.total, REPORT_DIGITS as nat);
}

impl From<Account> for TransactionResultSummary {
    /// The report of `account`.
    fn from(account: Account) -> (r: TransactionResultSummary) {
        TransactionResultSummary::of(&account)
    }
}

impl FromSpecImpl<Account> for TransactionResultSummary {
    open spec fn obeys_from_spec() -> bool {
        true
    }

    open spec fn from_spec(account: Account) -> TransactionResultSummary {
        TransactionResultSummary::summarized(account@)
    }
}

impl PartialEq for TransactionResultSummary {
    /// Equality of the client, the three amounts and the lock; `1.50` equals `1.5`.
    fn eq(&self, other: &TransactionResultSummary) -> (r: bool) {
        self.client == other.client && self.available == other.available && self.held == other.held
            && self.total == other.total && self.locked == other.locked
    }
}

impl PartialEqSpecImpl for TransactionResultSummary {
    open spec fn obeys_eq_spec() -> bool {
        true
    }

    open spec fn eq_spec(&self, other: &TransactionResultSummary) -> bool {
        &&& self.client == other.client
        &&& self.available@ == other.available@
        &&& self.held@ == other.held@
        &&& self.total@ == other.total@
        &&& self.locked == other.locked
    }
}

} // verus!
