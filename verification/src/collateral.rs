//! Movement of collateral and tokens between named buckets. The DOT side
//! knows four bucket kinds (`CurrencySource`); `slash_collateral` is the one
//! way collateral moves between them. The wBTC side offers the treasury
//! primitives: mint, burn, lock, unlock.

use vstd::prelude::*;
use crate::bridge::Bridge;
use crate::errors::Error;
use crate::types::{AccountId, Amount, CurrencySource, Vault};

verus! {

impl Bridge {
    /// Whether the bucket refers to state that exists.
    pub open spec fn source_exists(self, s: CurrencySource) -> bool {
        match s {
            CurrencySource::Backing(v) => self.has_vault(v),
            _ => true,
        }
    }

    /// The balance held in the bucket.
    pub open spec fn source_balance(self, s: CurrencySource) -> int {
        match s {
            CurrencySource::Backing(v) => self.vault_of(v).backing_collateral as int,
            CurrencySource::Griefing(a) => self.dot_locked(a) as int,
            CurrencySource::FreeBalance(a) => self.dot_free(a) as int,
            CurrencySource::LiquidationVault => self.liquidation_collateral as int,
        }
    }

    /// Removes `amount` from a bucket the caller has checked to exist and to
    /// hold at least `amount`.
    fn debit_source(&mut self, src: CurrencySource, amount: Amount)
        requires
            old(self).inv(),
            old(self).source_exists(src),
            old(self).source_balance(src) >= amount,
        ensures
            final(self).inv(),
            *final(self) == (Bridge {
                vaults: final(self).vaults,
                collateral: final(self).collateral,
                liquidation_collateral: final(self).liquidation_collateral,
                ..*old(self)
            }),
            final(self).source_balance(src) == old(self).source_balance(src) - amount,
            forall|s: CurrencySource| s != src && old(self).source_exists(s)
                ==> final(self).source_balance(s) == old(self).source_balance(s),
            forall|x: AccountId| final(self).has_vault(x) <==> old(self).has_vault(x),
            forall|x: AccountId| old(self).has_vault(x) && src != CurrencySource::Backing(x)
                ==> final(self).vault_of(x) == old(self).vault_of(x),
            forall|x: AccountId| old(self).has_vault(x) && src == CurrencySource::Backing(x)
                ==> final(self).vault_of(x) == (Vault {
                    backing_collateral: final(self).vault_of(x).backing_collateral,
                    ..old(self).vault_of(x)
                }),
            forall|a: AccountId| src != CurrencySource::Griefing(a)
                ==> final(self).dot_locked(a) == old(self).dot_locked(a),
            forall|a: AccountId| src != CurrencySource::FreeBalance(a)
                ==> final(self).dot_free(a) == old(self).dot_free(a),
            src != CurrencySource::LiquidationVault
                ==> final(self).liquidation_collateral == old(self).liquidation_collateral,
            !(src is Backing) ==> final(self).vaults == old(self).vaults,
            final(self).total_issued() == old(self).total_issued(),
    {
        match src {
            CurrencySource::Backing(v) => {
                let vault = match self.get_vault_from_id(v) {
                    Ok(vault) => vault,
                    Err(_) => {
                        proof {
                            assert(false);
                        }
                        return;
                    }
                };
                let nv = Vault { backing_collateral: vault.backing_collateral - amount, ..vault };
                self.put_vault(nv);
            }
            CurrencySource::Griefing(a) => {
                let f = self.collateral.get_free(a);
                let l = self.collateral.get_locked(a);
                self.collateral.set_balance(a, f, l - amount);
            }
            CurrencySource::FreeBalance(a) => {
                let f = self.collateral.get_free(a);
                let l = self.collateral.get_locked(a);
                self.collateral.set_balance(a, f - amount, l);
            }
            CurrencySource::LiquidationVault => {
                self.liquidation_collateral = self.liquidation_collateral - amount;
            }
        }
    }

    /// Adds `amount` to a bucket the caller has checked to exist and to have
    /// room for it.
    fn credit_source(&mut self, dst: CurrencySource, amount: Amount)
        requires
            old(self).inv(),
            old(self).source_exists(dst),
            old(self).source_balance(dst) + amount <= u128::MAX,
        ensures
            final(self).inv(),
            *final(self) == (Bridge {
                vaults: final(self).vaults,
                collateral: final(self).collateral,
                liquidation_collateral: final(self).liquidation_collateral,
                ..*old(self)
            }),
            final(self).source_balance(dst) == old(self).source_balance(dst) + amount,
            forall|s: CurrencySource| s != dst && old(self).source_exists(s)
                ==> final(self).source_balance(s) == old(self).source_balance(s),
            forall|x: AccountId| final(self).has_vault(x) <==> old(self).has_vault(x),
            forall|x: AccountId| old(self).has_vault(x) && dst != CurrencySource::Backing(x)
                ==> final(self).vault_of(x) == old(self).vault_of(x),
            forall|x: AccountId| old(self).has_vault(x) && dst == CurrencySource::Backing(x)
                ==> final(self).vault_of(x) == (Vault {
                    backing_collateral: final(self).vault_of(x).backing_collateral,
                    ..old(self).vault_of(x)
                }),
            forall|a: AccountId| dst != CurrencySource::Griefing(a)
                ==> final(self).dot_locked(a) == old(self).dot_locked(a),
            forall|a: AccountId| dst != CurrencySource::FreeBalance(a)
                ==> final(self).dot_free(a) == old(self).dot_free(a),
            dst != CurrencySource::LiquidationVault
                ==> final(self).liquidation_collateral == old(self).liquidation_collateral,
            !(dst is Backing) ==> final(self).vaults == old(self).vaults,
            final(self).total_issued() == old(self).total_issued(),
    {
        match dst {
            CurrencySource::Backing(v) => {
                let vault = match self.get_vault_from_id(v) {
                    Ok(vault) => vault,
                    Err(_) => {
                        proof {
                            assert(false);
                        }
                        return;
                    }
                };
                let nv = Vault { backing_collateral: vault.backing_collateral + amount, ..vault };
                self.put_vault(nv);
            }
            CurrencySource::Griefing(a) => {
                let f = self.collateral.get_free(a);
                let l = self.collateral.get_locked(a);
                self.collateral.set_balance(a, f, l + amount);
            }
            CurrencySource::FreeBalance(a) => {
                let f = self.collateral.get_free(a);
                let l = self.collateral.get_locked(a);
                self.collateral.set_balance(a, f + amount, l);
            }
            CurrencySource::LiquidationVault => {
                self.liquidation_collateral = self.liquidation_collateral + amount;
            }
        }
    }

    /// Moves `amount` of collateral from one bucket to another. This is the
    /// only path by which collateral changes buckets.
    pub fn slash_collateral(&mut self, src: CurrencySource, dst: CurrencySource, amount: Amount)
        -> (r: Result<(), Error>)
        requires
            old(self).inv(),
        ensures
            final(self).inv(),
            r is Ok <==> old(self).source_exists(src) && old(self).source_exists(dst)
                && old(self).source_balance(src) >= amount
                && (src == dst || old(self).source_balance(dst) + amount <= u128::MAX),
            r matches Err(e) ==> *final(self) == *old(self) && {
                ||| (e == Error::VaultNotFound
                    && (!old(self).source_exists(src) || !old(self).source_exists(dst)))
                ||| (e == Error::InsufficientFunds && old(self).source_exists(src)
                    && old(self).source_exists(dst) && old(self).source_balance(src) < amount)
                ||| (e == Error::ArithmeticOverflow && old(self).source_exists(src)
                    && old(self).source_exists(dst) && old(self).source_balance(src) >= amount
                    && src != dst && old(self).source_balance(dst) + amount > u128::MAX)
            },
            r is Ok ==> {
                &&& *final(self) == (Bridge {
                    vaults: final(self).vaults,
                    collateral: final(self).collateral,
                    liquidation_collateral: final(self).liquidation_collateral,
                    ..*old(self)
                })
                &&& (src != dst ==> final(self).source_balance(src)
                    == old(self).source_balance(src) - amount
                    && final(self).source_balance(dst) == old(self).source_balance(dst) + amount)
                &&& (src == dst ==> final(self).source_balance(src)
                    == old(self).source_balance(src))
                &&& forall|s: CurrencySource| s != src && s != dst && old(self).source_exists(s)
                    ==> final(self).source_balance(s) == old(self).source_balance(s)
                &&& forall|x: AccountId| final(self).has_vault(x) <==> old(self).has_vault(x)
                &&& forall|x: AccountId| old(self).has_vault(x)
                    && src != CurrencySource::Backing(x) && dst != CurrencySource::Backing(x)
                    ==> final(self).vault_of(x) == old(self).vault_of(x)
                &&& forall|x: AccountId| old(self).has_vault(x)
                    && (src == CurrencySource::Backing(x) || dst == CurrencySource::Backing(x))
                    ==> final(self).vault_of(x) == (Vault {
                        backing_collateral: final(self).vault_of(x).backing_collateral,
                        ..old(self).vault_of(x)
                    })
                &&& forall|a: AccountId| src != CurrencySource::Griefing(a)
                    && dst != CurrencySource::Griefing(a)
                    ==> final(self).dot_locked(a) == old(self).dot_locked(a)
                &&& forall|a: AccountId| src != CurrencySource::FreeBalance(a)
                    && dst != CurrencySource::FreeBalance(a)
                    ==> final(self).dot_free(a) == old(self).dot_free(a)
                &&& (src != CurrencySource::LiquidationVault
                    && dst != CurrencySource::LiquidationVault
                    ==> final(self).liquidation_collateral == old(self).liquidation_collateral)
                &&& (!(src is Backing) && !(dst is Backing)
                    ==> final(self).vaults == old(self).vaults)
                &&& final(self).total_issued() == old(self).total_issued()
            },
    {
        let sb = match src {
            CurrencySource::Backing(v) => self.get_vault_from_id(v)?.backing_collateral,
            CurrencySource::Griefing(a) => self.collateral.get_locked(a),
            CurrencySource::FreeBalance(a) => self.collateral.get_free(a),
            CurrencySource::LiquidationVault => self.liquidation_collateral,
        };
        let db = match dst {
            CurrencySource::Backing(v) => self.get_vault_from_id(v)?.backing_collateral,
            CurrencySource::Griefing(a) => self.collateral.get_locked(a),
            CurrencySource::FreeBalance(a) => self.collateral.get_free(a),
            CurrencySource::LiquidationVault => self.liquidation_collateral,
        };
        if sb < amount {
            return Err(Error::InsufficientFunds);
        }
        if src != dst {
            if db.checked_add(amount).is_none() {
                return Err(Error::ArithmeticOverflow);
            }
        }
        self.debit_source(src, amount);
        self.credit_source(dst, amount);
        Ok(())
    }
}

} // verus!
