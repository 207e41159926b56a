//! The wBTC treasury primitives: mint, burn, lock, unlock, balances and
//! total supply; and the DOT balance primitives: lock, release, transfer.
//! Total supply always equals the sum of free and locked holdings over all
//! accounts — `total_supply` is defined as that sum.

use vstd::prelude::*;
use crate::bridge::Bridge;
use crate::errors::Error;
use crate::types::{AccountId, Amount};

verus! {

impl Bridge {
    // ----- wBTC ----------------------------------------------------------

    pub fn get_token_balance_from_account(&self, a: AccountId) -> (r: Amount)
        requires
            self.inv(),
        ensures
            r == self.tokens_free(a),
    {
        self.treasury.get_free(a)
    }

    pub fn get_locked_token_balance_from_account(&self, a: AccountId) -> (r: Amount)
        requires
            self.inv(),
        ensures
            r == self.tokens_locked(a),
    {
        self.treasury.get_locked(a)
    }

    /// Total wBTC supply; errs only when it does not fit a machine word.
    pub fn get_total_supply(&self) -> (r: Result<Amount, Error>)
        requires
            self.inv(),
        ensures
            match r {
                Ok(v) => v == self.total_supply(),
                Err(e) => e == Error::ArithmeticOverflow && self.total_supply() > u128::MAX,
            },
    {
        self.treasury.compute_total()
    }

    /// Creates `amount` new wBTC in `a`'s free balance.
    pub fn mint(&mut self, a: AccountId, amount: Amount) -> (r: Result<(), Error>)
        requires
            old(self).inv(),
        ensures
            final(self).inv(),
            r is Ok <==> old(self).tokens_free(a) + amount <= u128::MAX,
            r matches Err(e) ==> *final(self) == *old(self) && e == Error::ArithmeticOverflow,
            r is Ok ==> {
                &&& *final(self) == (Bridge { treasury: final(self).treasury, ..*old(self) })
                &&& final(self).tokens_free(a) == old(self).tokens_free(a) + amount
                &&& final(self).tokens_locked(a) == old(self).tokens_locked(a)
                &&& forall|x: AccountId| x != a
                    ==> final(self).tokens_free(x) == old(self).tokens_free(x)
                        && final(self).tokens_locked(x) == old(self).tokens_locked(x)
                &&& final(self).total_supply() == old(self).total_supply() + amount
            },
    {
        let f = self.treasury.get_free(a);
        let l = self.treasury.get_locked(a);
        match f.checked_add(amount) {
            Some(nf) => {
                self.treasury.set_balance(a, nf, l);
                Ok(())
            }
            None => Err(Error::ArithmeticOverflow),
        }
    }

    /// Mints to two recipients at once (user amount and fee) so that either
    /// both minting steps happen or neither.
    pub fn mint_two(&mut self, a: AccountId, x: Amount, b: AccountId, y: Amount) -> (r: Result<
        (),
        Error,
    >)
        requires
            old(self).inv(),
        ensures
            final(self).inv(),
            r is Ok <==> if a == b {
                old(self).tokens_free(a) + x + y <= u128::MAX
            } else {
                old(self).tokens_free(a) + x <= u128::MAX
                    && old(self).tokens_free(b) + y <= u128::MAX
            },
            r matches Err(e) ==> *final(self) == *old(self) && e == Error::ArithmeticOverflow,
            r is Ok ==> {
                &&& *final(self) == (Bridge { treasury: final(self).treasury, ..*old(self) })
                &&& (a == b ==> final(self).tokens_free(a) == old(self).tokens_free(a) + x + y)
                &&& (a != b ==> final(self).tokens_free(a) == old(self).tokens_free(a) + x
                    && final(self).tokens_free(b) == old(self).tokens_free(b) + y)
                &&& forall|z: AccountId| z != a && z != b
                    ==> final(self).tokens_free(z) == old(self).tokens_free(z)
                &&& forall|z: AccountId| final(self).tokens_locked(z)
                    == old(self).tokens_locked(z)
                &&& final(self).total_supply() == old(self).total_supply() + x + y
            },
    {
        if a == b {
            let f = self.treasury.get_free(a);
            let l = self.treasury.get_locked(a);
            let nf = match f.checked_add(x) {
                Some(v) => v,
                None => {
                    return Err(Error::ArithmeticOverflow);
                }
            };
            let nf = match nf.checked_add(y) {
                Some(v) => v,
                None => {
                    return Err(Error::ArithmeticOverflow);
                }
            };
            self.treasury.set_balance(a, nf, l);
            Ok(())
        } else {
            let fa = self.treasury.get_free(a);
            let la = self.treasury.get_locked(a);
            let fb = self.treasury.get_free(b);
            let lb = self.treasury.get_locked(b);
            let nfa = match fa.checked_add(x) {
                Some(v) => v,
                None => {
                    return Err(Error::ArithmeticOverflow);
                }
            };
            let nfb = match fb.checked_add(y) {
                Some(v) => v,
                None => {
                    return Err(Error::ArithmeticOverflow);
                }
            };
            self.treasury.set_balance(a, nfa, la);
            self.treasury.set_balance(b, nfb, lb);
            Ok(())
        }
    }

    /// Locks `amount` of `a`'s free wBTC.
    pub fn lock_tokens(&mut self, a: AccountId, amount: Amount) -> (r: Result<(), Error>)
        requires
            old(self).inv(),
        ensures
            final(self).inv(),
            r is Ok <==> old(self).tokens_free(a) >= amount
                && old(self).tokens_locked(a) + amount <= u128::MAX,
            r matches Err(e) ==> *final(self) == *old(self) && {
                ||| (e == Error::InsufficientFunds && old(self).tokens_free(a) < amount)
                ||| (e == Error::ArithmeticOverflow && old(self).tokens_free(a) >= amount
                    && old(self).tokens_locked(a) + amount > u128::MAX)
            },
            r is Ok ==> {
                &&& *final(self) == (Bridge { treasury: final(self).treasury, ..*old(self) })
                &&& final(self).tokens_free(a) == old(self).tokens_free(a) - amount
                &&& final(self).tokens_locked(a) == old(self).tokens_locked(a) + amount
                &&& forall|x: AccountId| x != a
                    ==> final(self).tokens_free(x) == old(self).tokens_free(x)
                        && final(self).tokens_locked(x) == old(self).tokens_locked(x)
                &&& final(self).total_supply() == old(self).total_supply()
            },
    {
        let f = self.treasury.get_free(a);
        let l = self.treasury.get_locked(a);
        if f < amount {
            return Err(Error::InsufficientFunds);
        }
        match l.checked_add(amount) {
            Some(nl) => {
                self.treasury.set_balance(a, f - amount, nl);
                Ok(())
            }
            None => Err(Error::ArithmeticOverflow),
        }
    }

    /// Releases `amount` of `a`'s locked wBTC back to its free balance.
    pub fn unlock_tokens(&mut self, a: AccountId, amount: Amount) -> (r: Result<(), Error>)
        requires
            old(self).inv(),
        ensures
            final(self).inv(),
            r is Ok <==> old(self).tokens_locked(a) >= amount
                && old(self).tokens_free(a) + amount <= u128::MAX,
            r matches Err(e) ==> *final(self) == *old(self) && {
                ||| (e == Error::InsufficientFunds && old(self).tokens_locked(a) < amount)
                ||| (e == Error::ArithmeticOverflow && old(self).tokens_locked(a) >= amount
                    && old(self).tokens_free(a) + amount > u128::MAX)
            },
            r is Ok ==> {
                &&& *final(self) == (Bridge { treasury: final(self).treasury, ..*old(self) })
                &&& final(self).tokens_free(a) == old(self).tokens_free(a) + amount
                &&& final(self).tokens_locked(a) == old(self).tokens_locked(a) - amount
                &&& forall|x: AccountId| x != a
                    ==> final(self).tokens_free(x) == old(self).tokens_free(x)
                        && final(self).tokens_locked(x) == old(self).tokens_locked(x)
                &&& final(self).total_supply() == old(self).total_supply()
            },
    {
        let f = self.treasury.get_free(a);
        let l = self.treasury.get_locked(a);
        if l < amount {
            return Err(Error::InsufficientFunds);
        }
        match f.checked_add(amount) {
            Some(nf) => {
                self.treasury.set_balance(a, nf, l - amount);
                Ok(())
            }
            None => Err(Error::ArithmeticOverflow),
        }
    }

    /// Destroys `amount` of `a`'s locked wBTC.
    pub fn burn_locked_tokens(&mut self, a: AccountId, amount: Amount) -> (r: Result<(), Error>)
        requires
            old(self).inv(),
        ensures
            final(self).inv(),
            r is Ok <==> old(self).tokens_locked(a) >= amount,
            r matches Err(e) ==> *final(self) == *old(self) && e == Error::InsufficientFunds,
            r is Ok ==> {
                &&& *final(self) == (Bridge { treasury: final(self).treasury, ..*old(self) })
                &&& final(self).tokens_free(a) == old(self).tokens_free(a)
                &&& final(self).tokens_locked(a) == old(self).tokens_locked(a) - amount
                &&& forall|x: AccountId| x != a
                    ==> final(self).tokens_free(x) == old(self).tokens_free(x)
                        && final(self).tokens_locked(x) == old(self).tokens_locked(x)
                &&& final(self).total_supply() == old(self).total_supply() - amount
            },
    {
        let f = self.treasury.get_free(a);
        let l = self.treasury.get_locked(a);
        if l < amount {
            return Err(Error::InsufficientFunds);
        }
        self.treasury.set_balance(a, f, l - amount);
        Ok(())
    }

    /// Destroys `amount` of `a`'s free wBTC.
    pub fn burn_free_tokens(&mut self, a: AccountId, amount: Amount) -> (r: Result<(), Error>)
        requires
            old(self).inv(),
        ensures
            final(self).inv(),
            r is Ok <==> old(self).tokens_free(a) >= amount,
            r matches Err(e) ==> *final(self) == *old(self) && e == Error::InsufficientFunds,
            r is Ok ==> {
                &&& *final(self) == (Bridge { treasury: final(self).treasury, ..*old(self) })
                &&& final(self).tokens_free(a) == old(self).tokens_free(a) - amount
                &&& final(self).tokens_locked(a) == old(self).tokens_locked(a)
                &&& forall|x: AccountId| x != a
                    ==> final(self).tokens_free(x) == old(self).tokens_free(x)
                        && final(self).tokens_locked(x) == old(self).tokens_locked(x)
                &&& final(self).total_supply() == old(self).total_supply() - amount
            },
    {
        let f = self.treasury.get_free(a);
        let l = self.treasury.get_locked(a);
        if f < amount {
            return Err(Error::InsufficientFunds);
        }
        self.treasury.set_balance(a, f - amount, l);
        Ok(())
    }

    // ----- DOT -----------------------------------------------------------

    pub fn get_balance_from_account(&self, a: AccountId) -> (r: Amount)
        requires
            self.inv(),
        ensures
            r == self.dot_free(a),
    {
        self.collateral.get_free(a)
    }

    pub fn get_collateral_from_account(&self, a: AccountId) -> (r: Amount)
        requires
            self.inv(),
        ensures
            r == self.dot_locked(a),
    {
        self.collateral.get_locked(a)
    }

    /// Locks `amount` of `a`'s free DOT as griefing collateral.
    pub fn lock_collateral(&mut self, a: AccountId, amount: Amount) -> (r: Result<(), Error>)
        requires
            old(self).inv(),
        ensures
            final(self).inv(),
            r is Ok <==> old(self).dot_free(a) >= amount
                && old(self).dot_locked(a) + amount <= u128::MAX,
            r matches Err(e) ==> *final(self) == *old(self) && {
                ||| (e == Error::InsufficientFunds && old(self).dot_free(a) < amount)
                ||| (e == Error::ArithmeticOverflow && old(self).dot_free(a) >= amount
                    && old(self).dot_locked(a) + amount > u128::MAX)
            },
            r is Ok ==> {
                &&& *final(self) == (Bridge { collateral: final(self).collateral, ..*old(self) })
                &&& final(self).dot_free(a) == old(self).dot_free(a) - amount
                &&& final(self).dot_locked(a) == old(self).dot_locked(a) + amount
                &&& forall|x: AccountId| x != a
                    ==> final(self).dot_free(x) == old(self).dot_free(x)
                        && final(self).dot_locked(x) == old(self).dot_locked(x)
            },
    {
        let f = self.collateral.get_free(a);
        let l = self.collateral.get_locked(a);
        if f < amount {
            return Err(Error::InsufficientFunds);
        }
        match l.checked_add(amount) {
            Some(nl) => {
                self.collateral.set_balance(a, f - amount, nl);
                Ok(())
            }
            None => Err(Error::ArithmeticOverflow),
        }
    }

    /// Releases `amount` of `a`'s locked DOT back to its free balance.
    pub fn release_collateral(&mut self, a: AccountId, amount: Amount) -> (r: Result<(), Error>)
        requires
            old(self).inv(),
        ensures
            final(self).inv(),
            r is Ok <==> old(self).dot_locked(a) >= amount
                && old(self).dot_free(a) + amount <= u128::MAX,
            r matches Err(e) ==> *final(self) == *old(self) && {
                ||| (e == Error::InsufficientFunds && old(self).dot_locked(a) < amount)
                ||| (e == Error::ArithmeticOverflow && old(self).dot_locked(a) >= amount
                    && old(self).dot_free(a) + amount > u128::MAX)
            },
            r is Ok ==> {
                &&& *final(self) == (Bridge { collateral: final(self).collateral, ..*old(self) })
                &&& final(self).dot_free(a) == old(self).dot_free(a) + amount
                &&& final(self).dot_locked(a) == old(self).dot_locked(a) - amount
                &&& forall|x: AccountId| x != a
                    ==> final(self).dot_free(x) == old(self).dot_free(x)
                        && final(self).dot_locked(x) == old(self).dot_locked(x)
            },
    {
        let f = self.collateral.get_free(a);
        let l = self.collateral.get_locked(a);
        if l < amount {
            return Err(Error::InsufficientFunds);
        }
        match f.checked_add(amount) {
            Some(nf) => {
                self.collateral.set_balance(a, nf, l - amount);
                Ok(())
            }
            None => Err(Error::ArithmeticOverflow),
        }
    }

    /// Moves free DOT from one account to another.
    pub fn transfer_dot(&mut self, from: AccountId, to: AccountId, amount: Amount) -> (r: Result<
        (),
        Error,
    >)
        requires
            old(self).inv(),
        ensures
            final(self).inv(),
            r is Ok <==> old(self).dot_free(from) >= amount
                && (from == to || old(self).dot_free(to) + amount <= u128::MAX),
            r matches Err(e) ==> *final(self) == *old(self) && {
                ||| (e == Error::InsufficientFunds && old(self).dot_free(from) < amount)
                ||| (e == Error::ArithmeticOverflow && old(self).dot_free(from) >= amount
                    && from != to && old(self).dot_free(to) + amount > u128::MAX)
            },
            r is Ok ==> {
                &&& *final(self) == (Bridge { collateral: final(self).collateral, ..*old(self) })
                &&& (from != to ==> final(self).dot_free(from) == old(self).dot_free(from) - amount
                    && final(self).dot_free(to) == old(self).dot_free(to) + amount)
                &&& (from == to ==> final(self).dot_free(from) == old(self).dot_free(from))
                &&& forall|x: AccountId| x != from && x != to
                    ==> final(self).dot_free(x) == old(self).dot_free(x)
                &&& forall|x: AccountId| final(self).dot_locked(x) == old(self).dot_locked(x)
            },
    {
        let ff = self.collateral.get_free(from);
        if ff < amount {
            return Err(Error::InsufficientFunds);
        }
        if from == to {
            return Ok(());
        }
        let ft = self.collateral.get_free(to);
        let lf = self.collateral.get_locked(from);
        let lt = self.collateral.get_locked(to);
        match ft.checked_add(amount) {
            Some(nt) => {
                self.collateral.set_balance(from, ff - amount, lf);
                self.collateral.set_balance(to, nt, lt);
                Ok(())
            }
            None => Err(Error::ArithmeticOverflow),
        }
    }
}

} // verus!
