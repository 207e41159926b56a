//! A single-currency ledger: free and locked holdings per account. The DOT
//! collateral ledger and the wBTC treasury are both instances. An account
//! that is absent holds zero; the view functions make that identification,
//! so contracts never depend on whether a zero account is materialized.

use vstd::prelude::*;
use crate::errors::Error;
use crate::table::{
    entry_of, find_by_key, has_key, keys_unique, lemma_entry_at, lemma_entry_push,
    lemma_entry_update, lemma_sum_push, lemma_sum_take_bound, lemma_sum_take_succ,
    lemma_sum_update, sum_by,
};
use crate::types::{AccountBalance, AccountId, Amount};

verus! {

/// The weight a ledger entry contributes to the ledger total.
pub open spec fn balance_weight_fn() -> spec_fn(AccountBalance) -> int {
    |b: AccountBalance| b.free + b.locked
}

#[derive(Debug)]
pub struct Ledger {
    pub accounts: Vec<AccountBalance>,
}

impl Ledger {
    pub open spec fn wf(self) -> bool {
        keys_unique(self.accounts@)
    }

    pub open spec fn free_of(self, a: AccountId) -> Amount {
        if has_key(self.accounts@, a) {
            entry_of(self.accounts@, a).free
        } else {
            0
        }
    }

    pub open spec fn locked_of(self, a: AccountId) -> Amount {
        if has_key(self.accounts@, a) {
            entry_of(self.accounts@, a).locked
        } else {
            0
        }
    }

    /// Sum of all holdings, free and locked.
    pub open spec fn total(self) -> int {
        sum_by(self.accounts@, balance_weight_fn())
    }

    pub fn new() -> (r: Self)
        ensures
            r.wf(),
            forall|a: AccountId| r.free_of(a) == 0 && r.locked_of(a) == 0,
            r.total() == 0,
    {
        Ledger { accounts: Vec::new() }
    }

    pub fn get_free(&self, a: AccountId) -> (r: Amount)
        requires
            self.wf(),
        ensures
            r == self.free_of(a),
    {
        match find_by_key(&self.accounts, a) {
            Some(i) => {
                proof {
                    lemma_entry_at(self.accounts@, i as int);
                }
                self.accounts[i].free
            }
            None => 0,
        }
    }

    pub fn get_locked(&self, a: AccountId) -> (r: Amount)
        requires
            self.wf(),
        ensures
            r == self.locked_of(a),
    {
        match find_by_key(&self.accounts, a) {
            Some(i) => {
                proof {
                    lemma_entry_at(self.accounts@, i as int);
                }
                self.accounts[i].locked
            }
            None => 0,
        }
    }

    /// Overwrites the holdings of one account, creating it if absent. This
    /// is the one primitive all balance movement reduces to; it cannot fail.
    pub fn set_balance(&mut self, a: AccountId, free: Amount, locked: Amount)
        requires
            old(self).wf(),
        ensures
            final(self).wf(),
            final(self).free_of(a) == free,
            final(self).locked_of(a) == locked,
            forall|x: AccountId| x != a ==> final(self).free_of(x) == old(self).free_of(x)
                && final(self).locked_of(x) == old(self).locked_of(x),
            final(self).total() == old(self).total() - old(self).free_of(a)
                - old(self).locked_of(a) + free + locked,
    {
        let entry = AccountBalance { id: a, free, locked };
        let ghost s0 = self.accounts@;
        match find_by_key(&self.accounts, a) {
            Some(i) => {
                self.accounts[i] = entry;
                proof {
                    lemma_entry_at(s0, i as int);
                    lemma_entry_update(s0, i as int, entry);
                    lemma_sum_update(s0, i as int, entry, balance_weight_fn());
                }
            }
            None => {
                self.accounts.push(entry);
                proof {
                    lemma_entry_push(s0, entry);
                    lemma_sum_push(s0, entry, balance_weight_fn());
                }
            }
        }
    }

    /// The ledger total as a machine integer; errs only when it does not
    /// fit.
    pub fn compute_total(&self) -> (r: Result<Amount, Error>)
        requires
            self.wf(),
        ensures
            match r {
                Ok(v) => v == self.total(),
                Err(e) => e == Error::ArithmeticOverflow && self.total() > u128::MAX,
            },
    {
        let ghost f = balance_weight_fn();
        let mut acc: u128 = 0;
        let mut i: usize = 0;
        while i < self.accounts.len()
            invariant
                self.wf(),
                i <= self.accounts.len(),
                acc == sum_by(self.accounts@.take(i as int), f),
                f == balance_weight_fn(),
            decreases self.accounts.len() - i,
        {
            let b = &self.accounts[i];
            proof {
                lemma_sum_take_succ(self.accounts@, i as int, f);
                if b.free + b.locked > u128::MAX || acc + b.free + b.locked > u128::MAX {
                    assert(forall|j: int| 0 <= j < self.accounts@.len()
                        ==> f(#[trigger] self.accounts@[j]) >= 0);
                    lemma_sum_take_bound(self.accounts@, i + 1, f);
                }
            }
            let w = match b.free.checked_add(b.locked) {
                Some(w) => w,
                None => {
                    return Err(Error::ArithmeticOverflow);
                }
            };
            acc = match acc.checked_add(w) {
                Some(v) => v,
                None => {
                    return Err(Error::ArithmeticOverflow);
                }
            };
            i += 1;
        }
        proof {
            assert(self.accounts@.take(i as int) =~= self.accounts@);
        }
        Ok(acc)
    }
}

} // verus!
