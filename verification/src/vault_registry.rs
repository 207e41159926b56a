//! The vault registry: registration, the token-counter transitions that the
//! issue, redeem and replace engines compose, the collateralization
//! threshold queries, and liquidation. Each transition is all-or-nothing
//! and preserves the per-vault counter invariant.

use vstd::prelude::*;
use crate::bridge::Bridge;
use crate::errors::Error;
use crate::fixed_point::UnsignedFixedPoint;
use crate::types::{AccountId, Amount, BlockNumber, BtcAddress, BtcPublicKey, RequestId, SystemVault, Vault,
    VaultStatus};

verus! {

/// DOT slashed to the liquidation vault when `v` is liquidated: its backing
/// collateral scaled by the share of its position not already in flight to
/// redeemers, rounded down.
pub open spec fn spec_liquidation_slash(v: Vault) -> int {
    let total = v.issued_tokens + v.to_be_issued_tokens;
    if total == 0 {
        0
    } else {
        (v.backing_collateral * (total - v.to_be_redeemed_tokens)) / total
    }
}

/// The pro-rata slash never exceeds the backing it is taken from.
pub(crate) proof fn lemma_slash_le_backing(backing: int, outstanding: int, total: int)
    requires
        0 <= backing,
        0 <= outstanding <= total,
        0 < total,
    ensures
        (backing * outstanding) / total <= backing,
{
    vstd::arithmetic::mul::lemma_mul_inequality(outstanding, total, backing);
    vstd::arithmetic::mul::lemma_mul_is_commutative(outstanding, backing);
    vstd::arithmetic::mul::lemma_mul_is_commutative(total, backing);
    vstd::arithmetic::div_mod::lemma_div_is_ordered(backing * outstanding, backing * total, total);
    vstd::arithmetic::div_mod::lemma_div_multiples_vanish(backing, total);
    vstd::arithmetic::mul::lemma_mul_is_commutative(total, backing);
}

impl Bridge {
    /// Conditions under which `try_increase_to_be_issued_tokens` succeeds:
    /// the vault is active, the arithmetic fits, and its backing collateral
    /// meets the secure threshold for the enlarged position.
    pub open spec fn spec_can_increase_to_be_issued(self, vault_id: AccountId, tokens: Amount)
        -> bool {
        let v = self.vault_of(vault_id);
        let new_outstanding = v.issued_tokens + v.to_be_issued_tokens + tokens
            - v.to_be_redeemed_tokens;
        &&& self.has_vault(vault_id)
        &&& v.status is Active
        &&& v.to_be_issued_tokens + tokens <= u128::MAX
        &&& v.issued_tokens + v.to_be_issued_tokens + tokens <= u128::MAX
        &&& self.threshold_computable(self.params.secure_collateral_threshold, new_outstanding)
        &&& !self.spec_below_threshold(
            v.backing_collateral as int,
            new_outstanding,
            self.params.secure_collateral_threshold,
        )
    }

    /// Registers a new vault, locking `collateral` out of its free balance
    /// as backing.
    pub fn register_vault(
        &mut self,
        vault_id: AccountId,
        collateral: Amount,
        public_key: BtcPublicKey,
    ) -> (r: Result<(), Error>)
        requires
            old(self).inv(),
        ensures
            final(self).inv(),
            r is Ok <==> old(self).running && collateral >= old(self).params.minimum_collateral_vault
                && !old(self).has_vault(vault_id) && old(self).dot_free(vault_id) >= collateral,
            r matches Err(e) ==> *final(self) == *old(self) && {
                ||| (e == Error::ParachainNotRunning && !old(self).running)
                ||| (e == Error::InsufficientCollateral && old(self).running
                    && collateral < old(self).params.minimum_collateral_vault)
                ||| (e == Error::VaultAlreadyRegistered && old(self).running
                    && collateral >= old(self).params.minimum_collateral_vault
                    && old(self).has_vault(vault_id))
                ||| (e == Error::InsufficientFunds && old(self).running
                    && collateral >= old(self).params.minimum_collateral_vault
                    && !old(self).has_vault(vault_id)
                    && old(self).dot_free(vault_id) < collateral)
            },
            r is Ok ==> {
                &&& *final(self) == (Bridge {
                    vaults: final(self).vaults,
                    collateral: final(self).collateral,
                    ..*old(self)
                })
                &&& final(self).has_vault(vault_id)
                &&& final(self).vault_of(vault_id) == (Vault {
                    id: vault_id,
                    to_be_issued_tokens: 0,
                    issued_tokens: 0,
                    to_be_redeemed_tokens: 0,
                    to_be_replaced_tokens: 0,
                    backing_collateral: collateral,
                    public_key,
                    banned_until: None,
                    status: VaultStatus::Active,
                })
                &&& forall|x: AccountId| x != vault_id
                    ==> (final(self).has_vault(x) <==> old(self).has_vault(x))
                &&& forall|x: AccountId| x != vault_id && old(self).has_vault(x)
                    ==> final(self).vault_of(x) == old(self).vault_of(x)
                &&& final(self).dot_free(vault_id) == old(self).dot_free(vault_id) - collateral
                &&& forall|a: AccountId| a != vault_id
                    ==> final(self).dot_free(a) == old(self).dot_free(a)
                &&& forall|a: AccountId| final(self).dot_locked(a) == old(self).dot_locked(a)
                &&& final(self).total_issued() == old(self).total_issued()
            },
    {
        self.ensure_parachain_status_running()?;
        if collateral < self.params.minimum_collateral_vault {
            return Err(Error::InsufficientCollateral);
        }
        match self.get_vault_from_id(vault_id) {
            Ok(_) => {
                return Err(Error::VaultAlreadyRegistered);
            }
            Err(_) => {}
        }
        let f = self.collateral.get_free(vault_id);
        if f < collateral {
            return Err(Error::InsufficientFunds);
        }
        let l = self.collateral.get_locked(vault_id);
        self.collateral.set_balance(vault_id, f - collateral, l);
        self.push_vault(Vault {
            id: vault_id,
            to_be_issued_tokens: 0,
            issued_tokens: 0,
            to_be_redeemed_tokens: 0,
            to_be_replaced_tokens: 0,
            backing_collateral: collateral,
            public_key,
            banned_until: None,
            status: VaultStatus::Active,
        });
        Ok(())
    }

    /// Moves `amount` of the vault's free balance into its backing
    /// collateral.
    pub fn try_lock_additional_collateral(&mut self, vault_id: AccountId, amount: Amount) -> (r:
        Result<(), Error>)
        requires
            old(self).inv(),
        ensures
            final(self).inv(),
            r is Ok <==> old(self).has_vault(vault_id)
                && old(self).dot_free(vault_id) >= amount
                && old(self).vault_of(vault_id).backing_collateral + amount <= u128::MAX,
            r matches Err(e) ==> *final(self) == *old(self) && {
                ||| (e == Error::VaultNotFound && !old(self).has_vault(vault_id))
                ||| (e == Error::InsufficientFunds && old(self).has_vault(vault_id)
                    && old(self).dot_free(vault_id) < amount)
                ||| (e == Error::ArithmeticOverflow && old(self).has_vault(vault_id)
                    && old(self).dot_free(vault_id) >= amount
                    && old(self).vault_of(vault_id).backing_collateral + amount > u128::MAX)
            },
            r is Ok ==> {
                &&& *final(self) == (Bridge {
                    vaults: final(self).vaults,
                    collateral: final(self).collateral,
                    ..*old(self)
                })
                &&& final(self).vault_of(vault_id) == (Vault {
                    backing_collateral: (old(self).vault_of(vault_id).backing_collateral
                        + amount) as u128,
                    ..old(self).vault_of(vault_id)
                })
                &&& forall|x: AccountId| (final(self).has_vault(x) <==> old(self).has_vault(x))
                &&& forall|x: AccountId| x != vault_id && old(self).has_vault(x)
                    ==> final(self).vault_of(x) == old(self).vault_of(x)
                &&& final(self).dot_free(vault_id) == old(self).dot_free(vault_id) - amount
                &&& forall|a: AccountId| a != vault_id
                    ==> final(self).dot_free(a) == old(self).dot_free(a)
                &&& forall|a: AccountId| final(self).dot_locked(a) == old(self).dot_locked(a)
                &&& final(self).total_issued() == old(self).total_issued()
            },
    {
        let v = self.get_vault_from_id(vault_id)?;
        let f = self.collateral.get_free(vault_id);
        if f < amount {
            return Err(Error::InsufficientFunds);
        }
        let nb = match v.backing_collateral.checked_add(amount) {
            Some(nb) => nb,
            None => {
                return Err(Error::ArithmeticOverflow);
            }
        };
        let l = self.collateral.get_locked(vault_id);
        self.collateral.set_balance(vault_id, f - amount, l);
        self.put_vault(Vault { backing_collateral: nb, ..v });
        Ok(())
    }

    /// Commits the vault to `tokens` further to-be-issued tokens, provided
    /// its collateral meets the secure threshold for the enlarged position.
    pub fn try_increase_to_be_issued_tokens(&mut self, vault_id: AccountId, tokens: Amount)
        -> (r: Result<(), Error>)
        requires
            old(self).inv(),
        ensures
            final(self).inv(),
            r is Ok <==> old(self).spec_can_increase_to_be_issued(vault_id, tokens),
            r matches Err(e) ==> *final(self) == *old(self) && {
                let v = old(self).vault_of(vault_id);
                let new_outstanding = v.issued_tokens + v.to_be_issued_tokens + tokens
                    - v.to_be_redeemed_tokens;
                ||| (e == Error::VaultNotFound && (!old(self).has_vault(vault_id)
                    || !(v.status is Active)))
                ||| (e == Error::ArithmeticOverflow && old(self).has_vault(vault_id)
                    && v.status is Active
                    && (v.to_be_issued_tokens + tokens > u128::MAX
                        || v.issued_tokens + v.to_be_issued_tokens + tokens > u128::MAX
                        || !old(self).threshold_computable(
                            old(self).params.secure_collateral_threshold,
                            new_outstanding,
                        )))
                ||| (e == Error::ExceedingVaultLimit
                    && old(self).spec_can_increase_to_be_issued(vault_id, tokens) == false
                    && old(self).has_vault(vault_id) && v.status is Active
                    && v.issued_tokens + v.to_be_issued_tokens + tokens <= u128::MAX
                    && old(self).threshold_computable(
                        old(self).params.secure_collateral_threshold,
                        new_outstanding,
                    ))
            },
            r is Ok ==> {
                &&& *final(self) == (Bridge { vaults: final(self).vaults, ..*old(self) })
                &&& final(self).vault_of(vault_id) == (Vault {
                    to_be_issued_tokens: (old(self).vault_of(vault_id).to_be_issued_tokens
                        + tokens) as u128,
                    ..old(self).vault_of(vault_id)
                })
                &&& forall|x: AccountId| (final(self).has_vault(x) <==> old(self).has_vault(x))
                &&& forall|x: AccountId| x != vault_id && old(self).has_vault(x)
                    ==> final(self).vault_of(x) == old(self).vault_of(x)
                &&& final(self).total_issued() == old(self).total_issued()
            },
    {
        let v = self.get_active_vault_from_id(vault_id)?;
        let new_tbi = match v.to_be_issued_tokens.checked_add(tokens) {
            Some(x) => x,
            None => {
                return Err(Error::ArithmeticOverflow);
            }
        };
        let s = match v.issued_tokens.checked_add(new_tbi) {
            Some(x) => x,
            None => {
                return Err(Error::ArithmeticOverflow);
            }
        };
        proof {
            self.lemma_vault_counters_ok(vault_id);
        }
        let new_outstanding = s - v.to_be_redeemed_tokens;
        let below = self.is_collateral_below_threshold(
            v.backing_collateral,
            new_outstanding,
            self.params.secure_collateral_threshold,
        )?;
        if below {
            return Err(Error::ExceedingVaultLimit);
        }
        self.put_vault(Vault { to_be_issued_tokens: new_tbi, ..v });
        Ok(())
    }

    /// Moves `tokens` from to-be-issued to issued — on the vault itself, or
    /// on the liquidation vault when the vault has been liquidated.
    pub fn issue_tokens(&mut self, vault_id: AccountId, tokens: Amount) -> (r: Result<(), Error>)
        requires
            old(self).inv(),
        ensures
            final(self).inv(),
            r is Ok <==> old(self).has_vault(vault_id) && {
                if old(self).vault_of(vault_id).is_liquidated() {
                    old(self).liquidation_vault.to_be_issued_tokens >= tokens
                        && old(self).liquidation_vault.issued_tokens + tokens <= u128::MAX
                } else {
                    old(self).vault_of(vault_id).to_be_issued_tokens >= tokens
                        && old(self).vault_of(vault_id).issued_tokens + tokens <= u128::MAX
                }
            },
            r matches Err(e) ==> *final(self) == *old(self)
                && (e == Error::VaultNotFound || e == Error::ArithmeticUnderflow
                    || e == Error::ArithmeticOverflow)
                && (e == Error::VaultNotFound <==> !old(self).has_vault(vault_id)),
            r is Ok ==> final(self).total_issued() == old(self).total_issued() + tokens
                && final(self).total_supply() == old(self).total_supply(),
            r is Ok && old(self).vault_of(vault_id).is_liquidated() ==> {
                &&& *final(self) == (Bridge {
                    liquidation_vault: (SystemVault {
                        to_be_issued_tokens: (old(self).liquidation_vault.to_be_issued_tokens
                            - tokens) as u128,
                        issued_tokens: (old(self).liquidation_vault.issued_tokens
                            + tokens) as u128,
                        ..old(self).liquidation_vault
                    }),
                    ..*old(self)
                })
            },
            r is Ok && !old(self).vault_of(vault_id).is_liquidated() ==> {
                &&& *final(self) == (Bridge { vaults: final(self).vaults, ..*old(self) })
                &&& final(self).vault_of(vault_id) == (Vault {
                    to_be_issued_tokens: (old(self).vault_of(vault_id).to_be_issued_tokens
                        - tokens) as u128,
                    issued_tokens: (old(self).vault_of(vault_id).issued_tokens + tokens) as u128,
                    ..old(self).vault_of(vault_id)
                })
                &&& forall|x: AccountId| (final(self).has_vault(x) <==> old(self).has_vault(x))
                &&& forall|x: AccountId| x != vault_id && old(self).has_vault(x)
                    ==> final(self).vault_of(x) == old(self).vault_of(x)
            },
    {
        let v = self.get_vault_from_id(vault_id)?;
        if matches!(v.status, VaultStatus::Liquidated) {
            let lv = self.liquidation_vault;
            if lv.to_be_issued_tokens < tokens {
                return Err(Error::ArithmeticUnderflow);
            }
            let ni = match lv.issued_tokens.checked_add(tokens) {
                Some(x) => x,
                None => {
                    return Err(Error::ArithmeticOverflow);
                }
            };
            self.liquidation_vault = SystemVault {
                to_be_issued_tokens: lv.to_be_issued_tokens - tokens,
                issued_tokens: ni,
                ..lv
            };
            Ok(())
        } else {
            if v.to_be_issued_tokens < tokens {
                return Err(Error::ArithmeticUnderflow);
            }
            let ni = match v.issued_tokens.checked_add(tokens) {
                Some(x) => x,
                None => {
                    return Err(Error::ArithmeticOverflow);
                }
            };
            proof {
                self.lemma_vault_counters_ok(vault_id);
            }
            self.put_vault(Vault {
                to_be_issued_tokens: v.to_be_issued_tokens - tokens,
                issued_tokens: ni,
                ..v
            });
            Ok(())
        }
    }

    /// Reverses a to-be-issued commitment — on the vault, or on the
    /// liquidation vault when the vault has been liquidated.
    pub fn decrease_to_be_issued_tokens(&mut self, vault_id: AccountId, tokens: Amount) -> (r:
        Result<(), Error>)
        requires
            old(self).inv(),
        ensures
            final(self).inv(),
            r is Ok <==> old(self).has_vault(vault_id) && {
                if old(self).vault_of(vault_id).is_liquidated() {
                    old(self).liquidation_vault.to_be_issued_tokens >= tokens
                        && old(self).liquidation_vault.issued_tokens
                            + old(self).liquidation_vault.to_be_issued_tokens - tokens
                            >= old(self).liquidation_vault.to_be_redeemed_tokens
                } else {
                    old(self).vault_of(vault_id).to_be_issued_tokens >= tokens
                }
            },
            r matches Err(e) ==> *final(self) == *old(self)
                && (e == Error::VaultNotFound || e == Error::ArithmeticUnderflow)
                && (e == Error::VaultNotFound <==> !old(self).has_vault(vault_id)),
            r is Ok ==> final(self).total_issued() == old(self).total_issued()
                && final(self).total_supply() == old(self).total_supply(),
            r is Ok && old(self).vault_of(vault_id).is_liquidated() ==> {
                *final(self) == (Bridge {
                    liquidation_vault: (SystemVault {
                        to_be_issued_tokens: (old(self).liquidation_vault.to_be_issued_tokens
                            - tokens) as u128,
                        ..old(self).liquidation_vault
                    }),
                    ..*old(self)
                })
            },
            r is Ok && !old(self).vault_of(vault_id).is_liquidated() ==> {
                &&& *final(self) == (Bridge { vaults: final(self).vaults, ..*old(self) })
                &&& final(self).vault_of(vault_id) == (Vault {
                    to_be_issued_tokens: (old(self).vault_of(vault_id).to_be_issued_tokens
                        - tokens) as u128,
                    ..old(self).vault_of(vault_id)
                })
                &&& forall|x: AccountId| (final(self).has_vault(x) <==> old(self).has_vault(x))
                &&& forall|x: AccountId| x != vault_id && old(self).has_vault(x)
                    ==> final(self).vault_of(x) == old(self).vault_of(x)
            },
    {
        let v = self.get_vault_from_id(vault_id)?;
        if matches!(v.status, VaultStatus::Liquidated) {
            let lv = self.liquidation_vault;
            if lv.to_be_issued_tokens < tokens {
                return Err(Error::ArithmeticUnderflow);
            }
            // the liquidation vault's redeemable stock may not go negative
            let rem = lv.to_be_issued_tokens - tokens;
            if lv.to_be_redeemed_tokens > rem
                && lv.to_be_redeemed_tokens - rem > lv.issued_tokens {
                return Err(Error::ArithmeticUnderflow);
            }
            self.liquidation_vault = SystemVault {
                to_be_issued_tokens: lv.to_be_issued_tokens - tokens,
                ..lv
            };
            Ok(())
        } else {
            if v.to_be_issued_tokens < tokens {
                return Err(Error::ArithmeticUnderflow);
            }
            self.put_vault(Vault { to_be_issued_tokens: v.to_be_issued_tokens - tokens, ..v });
            Ok(())
        }
    }

    /// Commits the vault to `tokens` further to-be-redeemed tokens; fails
    /// when the vault's redeemable stock is smaller. To keep
    /// `to_be_replaced` within the shrunken spare stock, it is clamped.
    pub fn try_increase_to_be_redeemed_tokens(&mut self, vault_id: AccountId, tokens: Amount)
        -> (r: Result<(), Error>)
        requires
            old(self).inv(),
        ensures
            final(self).inv(),
            r is Ok <==> old(self).has_vault(vault_id)
                && old(self).vault_of(vault_id).redeemable() >= tokens,
            r matches Err(e) ==> *final(self) == *old(self) && {
                ||| (e == Error::VaultNotFound && !old(self).has_vault(vault_id))
                ||| (e == Error::InsufficientTokensCommitted && old(self).has_vault(vault_id)
                    && old(self).vault_of(vault_id).redeemable() < tokens)
            },
            r is Ok ==> {
                let v = old(self).vault_of(vault_id);
                let new_tbr = (v.to_be_redeemed_tokens + tokens) as u128;
                let spare = (v.issued_tokens - new_tbr) as u128;
                &&& *final(self) == (Bridge { vaults: final(self).vaults, ..*old(self) })
                &&& final(self).vault_of(vault_id) == (Vault {
                    to_be_redeemed_tokens: new_tbr,
                    to_be_replaced_tokens: if v.to_be_replaced_tokens <= spare {
                        v.to_be_replaced_tokens
                    } else {
                        spare
                    },
                    ..v
                })
                &&& forall|x: AccountId| (final(self).has_vault(x) <==> old(self).has_vault(x))
                &&& forall|x: AccountId| x != vault_id && old(self).has_vault(x)
                    ==> final(self).vault_of(x) == old(self).vault_of(x)
                &&& final(self).total_issued() == old(self).total_issued()
            },
    {
        let v = self.get_vault_from_id(vault_id)?;
        proof {
            self.lemma_vault_counters_ok(vault_id);
        }
        if v.issued_tokens - v.to_be_redeemed_tokens < tokens {
            return Err(Error::InsufficientTokensCommitted);
        }
        let new_tbr = v.to_be_redeemed_tokens + tokens;
        let spare = v.issued_tokens - new_tbr;
        let new_tbrepl = if v.to_be_replaced_tokens <= spare {
            v.to_be_replaced_tokens
        } else {
            spare
        };
        self.put_vault(Vault {
            to_be_redeemed_tokens: new_tbr,
            to_be_replaced_tokens: new_tbrepl,
            ..v
        });
        Ok(())
    }

    /// Reverses a to-be-redeemed commitment — on the vault, or on the
    /// liquidation vault when the vault has been liquidated.
    pub fn decrease_to_be_redeemed_tokens(&mut self, vault_id: AccountId, tokens: Amount) -> (r:
        Result<(), Error>)
        requires
            old(self).inv(),
        ensures
            final(self).inv(),
            r is Ok <==> old(self).has_vault(vault_id) && {
                if old(self).vault_of(vault_id).is_liquidated() {
                    old(self).liquidation_vault.to_be_redeemed_tokens >= tokens
                } else {
                    old(self).vault_of(vault_id).to_be_redeemed_tokens >= tokens
                }
            },
            r matches Err(e) ==> *final(self) == *old(self)
                && (e == Error::VaultNotFound || e == Error::ArithmeticUnderflow)
                && (e == Error::VaultNotFound <==> !old(self).has_vault(vault_id)),
            r is Ok ==> final(self).total_issued() == old(self).total_issued(),
            r is Ok && old(self).vault_of(vault_id).is_liquidated() ==> {
                *final(self) == (Bridge {
                    liquidation_vault: (SystemVault {
                        to_be_redeemed_tokens: (old(self).liquidation_vault.to_be_redeemed_tokens
                            - tokens) as u128,
                        ..old(self).liquidation_vault
                    }),
                    ..*old(self)
                })
            },
            r is Ok && !old(self).vault_of(vault_id).is_liquidated() ==> {
                &&& *final(self) == (Bridge { vaults: final(self).vaults, ..*old(self) })
                &&& final(self).vault_of(vault_id) == (Vault {
                    to_be_redeemed_tokens: (old(self).vault_of(vault_id).to_be_redeemed_tokens
                        - tokens) as u128,
                    ..old(self).vault_of(vault_id)
                })
                &&& forall|x: AccountId| (final(self).has_vault(x) <==> old(self).has_vault(x))
                &&& forall|x: AccountId| x != vault_id && old(self).has_vault(x)
                    ==> final(self).vault_of(x) == old(self).vault_of(x)
            },
    {
        let v = self.get_vault_from_id(vault_id)?;
        if matches!(v.status, VaultStatus::Liquidated) {
            let lv = self.liquidation_vault;
            if lv.to_be_redeemed_tokens < tokens {
                return Err(Error::ArithmeticUnderflow);
            }
            self.liquidation_vault = SystemVault {
                to_be_redeemed_tokens: lv.to_be_redeemed_tokens - tokens,
                ..lv
            };
            Ok(())
        } else {
            if v.to_be_redeemed_tokens < tokens {
                return Err(Error::ArithmeticUnderflow);
            }
            proof {
                self.lemma_vault_counters_ok(vault_id);
            }
            self.put_vault(Vault {
                to_be_redeemed_tokens: v.to_be_redeemed_tokens - tokens,
                ..v
            });
            Ok(())
        }
    }

    /// Bars the vault from new obligations until the given height.
    pub fn ban_vault_until(&mut self, vault_id: AccountId, until: BlockNumber) -> (r: Result<
        (),
        Error,
    >)
        requires
            old(self).inv(),
        ensures
            final(self).inv(),
            r is Ok <==> old(self).has_vault(vault_id),
            r matches Err(e) ==> *final(self) == *old(self) && e == Error::VaultNotFound,
            r is Ok ==> {
                &&& *final(self) == (Bridge { vaults: final(self).vaults, ..*old(self) })
                &&& final(self).vault_of(vault_id) == (Vault {
                    banned_until: Some(until),
                    ..old(self).vault_of(vault_id)
                })
                &&& forall|x: AccountId| (final(self).has_vault(x) <==> old(self).has_vault(x))
                &&& forall|x: AccountId| x != vault_id && old(self).has_vault(x)
                    ==> final(self).vault_of(x) == old(self).vault_of(x)
                &&& final(self).total_issued() == old(self).total_issued()
            },
    {
        let v = self.get_vault_from_id(vault_id)?;
        proof {
            self.lemma_vault_counters_ok(vault_id);
        }
        self.put_vault(Vault { banned_until: Some(until), ..v });
        Ok(())
    }

    /// The redeem-execute path: burns `tokens` out of both `issued` and
    /// `to_be_redeemed` — on the vault, or on the liquidation vault when
    /// the vault has been liquidated.
    pub fn decrease_tokens(&mut self, vault_id: AccountId, tokens: Amount) -> (r: Result<
        (),
        Error,
    >)
        requires
            old(self).inv(),
        ensures
            final(self).inv(),
            r is Ok <==> old(self).has_vault(vault_id) && {
                if old(self).vault_of(vault_id).is_liquidated() {
                    old(self).liquidation_vault.to_be_redeemed_tokens >= tokens
                        && old(self).liquidation_vault.issued_tokens >= tokens
                } else {
                    old(self).vault_of(vault_id).to_be_redeemed_tokens >= tokens
                }
            },
            r matches Err(e) ==> *final(self) == *old(self)
                && (e == Error::VaultNotFound || e == Error::ArithmeticUnderflow)
                && (e == Error::VaultNotFound <==> !old(self).has_vault(vault_id)),
            r is Ok ==> final(self).total_issued() == old(self).total_issued() - tokens
                && final(self).total_supply() == old(self).total_supply(),
            r is Ok && old(self).vault_of(vault_id).is_liquidated() ==> {
                *final(self) == (Bridge {
                    liquidation_vault: (SystemVault {
                        issued_tokens: (old(self).liquidation_vault.issued_tokens
                            - tokens) as u128,
                        to_be_redeemed_tokens: (old(self).liquidation_vault.to_be_redeemed_tokens
                            - tokens) as u128,
                        ..old(self).liquidation_vault
                    }),
                    ..*old(self)
                })
            },
            r is Ok && !old(self).vault_of(vault_id).is_liquidated() ==> {
                &&& *final(self) == (Bridge { vaults: final(self).vaults, ..*old(self) })
                &&& final(self).vault_of(vault_id) == (Vault {
                    issued_tokens: (old(self).vault_of(vault_id).issued_tokens - tokens) as u128,
                    to_be_redeemed_tokens: (old(self).vault_of(vault_id).to_be_redeemed_tokens
                        - tokens) as u128,
                    ..old(self).vault_of(vault_id)
                })
                &&& forall|x: AccountId| (final(self).has_vault(x) <==> old(self).has_vault(x))
                &&& forall|x: AccountId| x != vault_id && old(self).has_vault(x)
                    ==> final(self).vault_of(x) == old(self).vault_of(x)
            },
    {
        let v = self.get_vault_from_id(vault_id)?;
        if matches!(v.status, VaultStatus::Liquidated) {
            let lv = self.liquidation_vault;
            if lv.to_be_redeemed_tokens < tokens || lv.issued_tokens < tokens {
                return Err(Error::ArithmeticUnderflow);
            }
            self.liquidation_vault = SystemVault {
                issued_tokens: lv.issued_tokens - tokens,
                to_be_redeemed_tokens: lv.to_be_redeemed_tokens - tokens,
                ..lv
            };
            Ok(())
        } else {
            if v.to_be_redeemed_tokens < tokens {
                return Err(Error::ArithmeticUnderflow);
            }
            proof {
                self.lemma_vault_counters_ok(vault_id);
            }
            self.put_vault(Vault {
                issued_tokens: v.issued_tokens - tokens,
                to_be_redeemed_tokens: v.to_be_redeemed_tokens - tokens,
                ..v
            });
            Ok(())
        }
    }

    /// Commits the vault to `tokens` further to-be-replaced tokens; fails
    /// when the spare stock (issued minus to-be-redeemed) is smaller.
    pub fn try_increase_to_be_replaced_tokens(&mut self, vault_id: AccountId, tokens: Amount)
        -> (r: Result<(), Error>)
        requires
            old(self).inv(),
        ensures
            final(self).inv(),
            r is Ok <==> old(self).has_vault(vault_id)
                && old(self).vault_of(vault_id).to_be_replaced_tokens + tokens
                    <= old(self).vault_of(vault_id).redeemable(),
            r matches Err(e) ==> *final(self) == *old(self) && {
                ||| (e == Error::VaultNotFound && !old(self).has_vault(vault_id))
                ||| (e == Error::InsufficientTokensCommitted && old(self).has_vault(vault_id)
                    && old(self).vault_of(vault_id).to_be_replaced_tokens + tokens
                        > old(self).vault_of(vault_id).redeemable())
            },
            r is Ok ==> {
                &&& *final(self) == (Bridge { vaults: final(self).vaults, ..*old(self) })
                &&& final(self).vault_of(vault_id) == (Vault {
                    to_be_replaced_tokens: (old(self).vault_of(vault_id).to_be_replaced_tokens
                        + tokens) as u128,
                    ..old(self).vault_of(vault_id)
                })
                &&& forall|x: AccountId| (final(self).has_vault(x) <==> old(self).has_vault(x))
                &&& forall|x: AccountId| x != vault_id && old(self).has_vault(x)
                    ==> final(self).vault_of(x) == old(self).vault_of(x)
                &&& final(self).total_issued() == old(self).total_issued()
            },
    {
        let v = self.get_vault_from_id(vault_id)?;
        proof {
            self.lemma_vault_counters_ok(vault_id);
        }
        let new_tbrepl = match v.to_be_replaced_tokens.checked_add(tokens) {
            Some(x) => x,
            None => {
                return Err(Error::InsufficientTokensCommitted);
            }
        };
        if new_tbrepl > v.issued_tokens - v.to_be_redeemed_tokens {
            return Err(Error::InsufficientTokensCommitted);
        }
        self.put_vault(Vault { to_be_replaced_tokens: new_tbrepl, ..v });
        Ok(())
    }

    /// Reverses a to-be-replaced commitment.
    pub fn decrease_to_be_replaced_tokens(&mut self, vault_id: AccountId, tokens: Amount) -> (r:
        Result<(), Error>)
        requires
            old(self).inv(),
        ensures
            final(self).inv(),
            r is Ok <==> old(self).has_vault(vault_id)
                && old(self).vault_of(vault_id).to_be_replaced_tokens >= tokens,
            r matches Err(e) ==> *final(self) == *old(self) && {
                ||| (e == Error::VaultNotFound && !old(self).has_vault(vault_id))
                ||| (e == Error::ArithmeticUnderflow && old(self).has_vault(vault_id)
                    && old(self).vault_of(vault_id).to_be_replaced_tokens < tokens)
            },
            r is Ok ==> {
                &&& *final(self) == (Bridge { vaults: final(self).vaults, ..*old(self) })
                &&& final(self).vault_of(vault_id) == (Vault {
                    to_be_replaced_tokens: (old(self).vault_of(vault_id).to_be_replaced_tokens
                        - tokens) as u128,
                    ..old(self).vault_of(vault_id)
                })
                &&& forall|x: AccountId| (final(self).has_vault(x) <==> old(self).has_vault(x))
                &&& forall|x: AccountId| x != vault_id && old(self).has_vault(x)
                    ==> final(self).vault_of(x) == old(self).vault_of(x)
                &&& final(self).total_issued() == old(self).total_issued()
            },
    {
        let v = self.get_vault_from_id(vault_id)?;
        if v.to_be_replaced_tokens < tokens {
            return Err(Error::ArithmeticUnderflow);
        }
        proof {
            self.lemma_vault_counters_ok(vault_id);
        }
        self.put_vault(Vault { to_be_replaced_tokens: v.to_be_replaced_tokens - tokens, ..v });
        Ok(())
    }

    /// Whether the vault has been liquidated.
    pub fn is_vault_liquidated(&self, vault_id: AccountId) -> (r: Result<bool, Error>)
        requires
            self.inv(),
        ensures
            match r {
                Ok(b) => self.has_vault(vault_id)
                    && b == self.vault_of(vault_id).is_liquidated(),
                Err(e) => e == Error::VaultNotFound && !self.has_vault(vault_id),
            },
    {
        let v = self.get_vault_from_id(vault_id)?;
        Ok(matches!(v.status, VaultStatus::Liquidated))
    }

    /// The replace-execute path: `tokens` leave the old vault's issued and
    /// to-be-redeemed counters and become issued on the new vault, whose
    /// to-be-issued commitment they fulfil; `collateral` of the old vault's
    /// backing is released to its free balance.
    pub fn replace_tokens(
        &mut self,
        old_vault_id: AccountId,
        new_vault_id: AccountId,
        tokens: Amount,
        collateral: Amount,
    ) -> (r: Result<(), Error>)
        requires
            old(self).inv(),
        ensures
            final(self).inv(),
            r is Ok <==> old(self).has_vault(old_vault_id) && old(self).has_vault(new_vault_id)
                && old(self).vault_of(old_vault_id).to_be_redeemed_tokens >= tokens
                && old(self).vault_of(new_vault_id).to_be_issued_tokens >= tokens
                && (old_vault_id == new_vault_id
                    || old(self).vault_of(new_vault_id).issued_tokens + tokens <= u128::MAX)
                && old(self).vault_of(old_vault_id).backing_collateral >= collateral
                && old(self).dot_free(old_vault_id) + collateral <= u128::MAX,
            r matches Err(e) ==> *final(self) == *old(self)
                && (e == Error::VaultNotFound || e == Error::ArithmeticUnderflow
                    || e == Error::ArithmeticOverflow || e == Error::InsufficientFunds)
                && (e == Error::VaultNotFound <==> !old(self).has_vault(old_vault_id)
                    || !old(self).has_vault(new_vault_id)),
            r is Ok ==> {
                let ov = old(self).vault_of(old_vault_id);
                let nv = old(self).vault_of(new_vault_id);
                &&& *final(self) == (Bridge {
                    vaults: final(self).vaults,
                    collateral: final(self).collateral,
                    ..*old(self)
                })
                &&& (old_vault_id != new_vault_id ==> {
                    &&& final(self).vault_of(old_vault_id) == (Vault {
                        issued_tokens: (ov.issued_tokens - tokens) as u128,
                        to_be_redeemed_tokens: (ov.to_be_redeemed_tokens - tokens) as u128,
                        backing_collateral: (ov.backing_collateral - collateral) as u128,
                        ..ov
                    })
                    &&& final(self).vault_of(new_vault_id) == (Vault {
                        issued_tokens: (nv.issued_tokens + tokens) as u128,
                        to_be_issued_tokens: (nv.to_be_issued_tokens - tokens) as u128,
                        ..nv
                    })
                })
                &&& (old_vault_id == new_vault_id
                    ==> final(self).vault_of(old_vault_id) == (Vault {
                        to_be_redeemed_tokens: (ov.to_be_redeemed_tokens - tokens) as u128,
                        to_be_issued_tokens: (ov.to_be_issued_tokens - tokens) as u128,
                        backing_collateral: (ov.backing_collateral - collateral) as u128,
                        ..ov
                    }))
                &&& forall|x: AccountId| (final(self).has_vault(x) <==> old(self).has_vault(x))
                &&& forall|x: AccountId| x != old_vault_id && x != new_vault_id
                    && old(self).has_vault(x)
                    ==> final(self).vault_of(x) == old(self).vault_of(x)
                &&& final(self).dot_free(old_vault_id) == old(self).dot_free(old_vault_id)
                    + collateral
                &&& forall|a: AccountId| a != old_vault_id
                    ==> final(self).dot_free(a) == old(self).dot_free(a)
                &&& forall|a: AccountId| final(self).dot_locked(a) == old(self).dot_locked(a)
                &&& final(self).total_issued() == old(self).total_issued()
                &&& final(self).total_supply() == old(self).total_supply()
            },
    {
        let ov = self.get_vault_from_id(old_vault_id)?;
        let nv = self.get_vault_from_id(new_vault_id)?;
        if ov.to_be_redeemed_tokens < tokens {
            return Err(Error::ArithmeticUnderflow);
        }
        if nv.to_be_issued_tokens < tokens {
            return Err(Error::ArithmeticUnderflow);
        }
        proof {
            self.lemma_vault_counters_ok(old_vault_id);
            self.lemma_vault_counters_ok(new_vault_id);
        }
        if ov.backing_collateral < collateral {
            return Err(Error::InsufficientFunds);
        }
        let f = self.collateral.get_free(old_vault_id);
        let nf = match f.checked_add(collateral) {
            Some(x) => x,
            None => {
                return Err(Error::ArithmeticOverflow);
            }
        };
        let l = self.collateral.get_locked(old_vault_id);
        if old_vault_id == new_vault_id {
            self.put_vault(Vault {
                to_be_redeemed_tokens: ov.to_be_redeemed_tokens - tokens,
                to_be_issued_tokens: ov.to_be_issued_tokens - tokens,
                backing_collateral: ov.backing_collateral - collateral,
                ..ov
            });
        } else {
            let ni = match nv.issued_tokens.checked_add(tokens) {
                Some(x) => x,
                None => {
                    return Err(Error::ArithmeticOverflow);
                }
            };
            self.put_vault(Vault {
                issued_tokens: ov.issued_tokens - tokens,
                to_be_redeemed_tokens: ov.to_be_redeemed_tokens - tokens,
                backing_collateral: ov.backing_collateral - collateral,
                ..ov
            });
            self.put_vault(Vault {
                issued_tokens: ni,
                to_be_issued_tokens: nv.to_be_issued_tokens - tokens,
                ..nv
            });
        }
        self.collateral.set_balance(old_vault_id, nf, l);
        Ok(())
    }

    /// The replace-cancel path: the counter commitments of an accepted
    /// replace are reversed on both vaults.
    pub fn cancel_replace_tokens(
        &mut self,
        old_vault_id: AccountId,
        new_vault_id: AccountId,
        tokens: Amount,
    ) -> (r: Result<(), Error>)
        requires
            old(self).inv(),
        ensures
            final(self).inv(),
            r is Ok <==> old(self).has_vault(old_vault_id) && old(self).has_vault(new_vault_id)
                && old(self).vault_of(old_vault_id).to_be_redeemed_tokens >= tokens
                && old(self).vault_of(new_vault_id).to_be_issued_tokens >= tokens,
            r matches Err(e) ==> *final(self) == *old(self)
                && (e == Error::VaultNotFound || e == Error::ArithmeticUnderflow)
                && (e == Error::VaultNotFound <==> !old(self).has_vault(old_vault_id)
                    || !old(self).has_vault(new_vault_id)),
            r is Ok ==> {
                let ov = old(self).vault_of(old_vault_id);
                let nv = old(self).vault_of(new_vault_id);
                &&& *final(self) == (Bridge { vaults: final(self).vaults, ..*old(self) })
                &&& (old_vault_id != new_vault_id ==> {
                    &&& final(self).vault_of(old_vault_id) == (Vault {
                        to_be_redeemed_tokens: (ov.to_be_redeemed_tokens - tokens) as u128,
                        ..ov
                    })
                    &&& final(self).vault_of(new_vault_id) == (Vault {
                        to_be_issued_tokens: (nv.to_be_issued_tokens - tokens) as u128,
                        ..nv
                    })
                })
                &&& (old_vault_id == new_vault_id
                    ==> final(self).vault_of(old_vault_id) == (Vault {
                        to_be_redeemed_tokens: (ov.to_be_redeemed_tokens - tokens) as u128,
                        to_be_issued_tokens: (ov.to_be_issued_tokens - tokens) as u128,
                        ..ov
                    }))
                &&& forall|x: AccountId| (final(self).has_vault(x) <==> old(self).has_vault(x))
                &&& forall|x: AccountId| x != old_vault_id && x != new_vault_id
                    && old(self).has_vault(x)
                    ==> final(self).vault_of(x) == old(self).vault_of(x)
                &&& final(self).total_issued() == old(self).total_issued()
            },
    {
        let ov = self.get_vault_from_id(old_vault_id)?;
        let nv = self.get_vault_from_id(new_vault_id)?;
        if ov.to_be_redeemed_tokens < tokens {
            return Err(Error::ArithmeticUnderflow);
        }
        if nv.to_be_issued_tokens < tokens {
            return Err(Error::ArithmeticUnderflow);
        }
        proof {
            self.lemma_vault_counters_ok(old_vault_id);
            self.lemma_vault_counters_ok(new_vault_id);
        }
        if old_vault_id == new_vault_id {
            self.put_vault(Vault {
                to_be_redeemed_tokens: ov.to_be_redeemed_tokens - tokens,
                to_be_issued_tokens: ov.to_be_issued_tokens - tokens,
                ..ov
            });
        } else {
            self.put_vault(Vault {
                to_be_redeemed_tokens: ov.to_be_redeemed_tokens - tokens,
                ..ov
            });
            self.put_vault(Vault {
                to_be_issued_tokens: nv.to_be_issued_tokens - tokens,
                ..nv
            });
        }
        Ok(())
    }

    /// Whether all sums and products in `liquidate_vault` fit.
    pub open spec fn spec_can_liquidate(self, vault_id: AccountId) -> bool {
        let v = self.vault_of(vault_id);
        let lv = self.liquidation_vault;
        let slashed = spec_liquidation_slash(v);
        &&& self.has_vault(vault_id)
        &&& v.issued_tokens + v.to_be_issued_tokens <= u128::MAX
        &&& (v.issued_tokens + v.to_be_issued_tokens > 0
            ==> v.backing_collateral
                * (v.issued_tokens + v.to_be_issued_tokens - v.to_be_redeemed_tokens)
                <= u128::MAX)
        &&& lv.issued_tokens + v.issued_tokens <= u128::MAX
        &&& lv.to_be_issued_tokens + v.to_be_issued_tokens <= u128::MAX
        &&& lv.to_be_redeemed_tokens + v.to_be_redeemed_tokens <= u128::MAX
        &&& self.liquidation_collateral + slashed <= u128::MAX
        &&& self.dot_free(vault_id) + (v.backing_collateral - slashed) <= u128::MAX
    }

    /// Marks the vault Liquidated: its counters move to the liquidation
    /// vault; a pro-rata share of its backing collateral — the fraction of
    /// its position not already in flight to redeemers — moves to the
    /// liquidation vault's collateral bucket, and the remainder becomes the
    /// vault's free balance. Returns the slashed amount.
    pub fn liquidate_vault(&mut self, vault_id: AccountId) -> (r: Result<Amount, Error>)
        requires
            old(self).inv(),
        ensures
            final(self).inv(),
            r is Ok <==> old(self).spec_can_liquidate(vault_id),
            r matches Err(e) ==> *final(self) == *old(self)
                && (e == Error::VaultNotFound || e == Error::ArithmeticOverflow)
                && (e == Error::VaultNotFound <==> !old(self).has_vault(vault_id)),
            r matches Ok(slashed) ==> {
                let v = old(self).vault_of(vault_id);
                let lv = old(self).liquidation_vault;
                &&& slashed == spec_liquidation_slash(v)
                &&& *final(self) == (Bridge {
                    vaults: final(self).vaults,
                    liquidation_vault: final(self).liquidation_vault,
                    liquidation_collateral: final(self).liquidation_collateral,
                    collateral: final(self).collateral,
                    ..*old(self)
                })
                &&& final(self).vault_of(vault_id) == (Vault {
                    to_be_issued_tokens: 0,
                    issued_tokens: 0,
                    to_be_redeemed_tokens: 0,
                    to_be_replaced_tokens: 0,
                    backing_collateral: 0,
                    status: VaultStatus::Liquidated,
                    ..v
                })
                &&& forall|x: AccountId| (final(self).has_vault(x) <==> old(self).has_vault(x))
                &&& forall|x: AccountId| x != vault_id && old(self).has_vault(x)
                    ==> final(self).vault_of(x) == old(self).vault_of(x)
                &&& final(self).liquidation_vault == (SystemVault {
                    to_be_issued_tokens: (lv.to_be_issued_tokens
                        + v.to_be_issued_tokens) as u128,
                    issued_tokens: (lv.issued_tokens + v.issued_tokens) as u128,
                    to_be_redeemed_tokens: (lv.to_be_redeemed_tokens
                        + v.to_be_redeemed_tokens) as u128,
                })
                &&& final(self).liquidation_collateral == old(self).liquidation_collateral
                    + slashed
                &&& final(self).dot_free(vault_id) == old(self).dot_free(vault_id)
                    + (v.backing_collateral - slashed)
                &&& forall|a: AccountId| a != vault_id
                    ==> final(self).dot_free(a) == old(self).dot_free(a)
                &&& forall|a: AccountId| final(self).dot_locked(a) == old(self).dot_locked(a)
                &&& final(self).total_issued() == old(self).total_issued()
                &&& final(self).total_supply() == old(self).total_supply()
            },
    {
        let v = self.get_vault_from_id(vault_id)?;
        proof {
            self.lemma_vault_counters_ok(vault_id);
        }
        let total = match v.issued_tokens.checked_add(v.to_be_issued_tokens) {
            Some(x) => x,
            None => {
                return Err(Error::ArithmeticOverflow);
            }
        };
        let outstanding = total - v.to_be_redeemed_tokens;
        let slashed: u128 = if total == 0 {
            0
        } else {
            let p = match v.backing_collateral.checked_mul(outstanding) {
                Some(x) => x,
                None => {
                    return Err(Error::ArithmeticOverflow);
                }
            };
            p / total
        };
        proof {
            if total != 0 {
                lemma_slash_le_backing(
                    v.backing_collateral as int,
                    outstanding as int,
                    total as int,
                );
            }
        }
        let remainder = v.backing_collateral - slashed;
        let lv = self.liquidation_vault;
        let n_issued = match lv.issued_tokens.checked_add(v.issued_tokens) {
            Some(x) => x,
            None => {
                return Err(Error::ArithmeticOverflow);
            }
        };
        let n_tbi = match lv.to_be_issued_tokens.checked_add(v.to_be_issued_tokens) {
            Some(x) => x,
            None => {
                return Err(Error::ArithmeticOverflow);
            }
        };
        let n_tbr = match lv.to_be_redeemed_tokens.checked_add(v.to_be_redeemed_tokens) {
            Some(x) => x,
            None => {
                return Err(Error::ArithmeticOverflow);
            }
        };
        let n_lc = match self.liquidation_collateral.checked_add(slashed) {
            Some(x) => x,
            None => {
                return Err(Error::ArithmeticOverflow);
            }
        };
        let f = self.collateral.get_free(vault_id);
        let nf = match f.checked_add(remainder) {
            Some(x) => x,
            None => {
                return Err(Error::ArithmeticOverflow);
            }
        };
        let l = self.collateral.get_locked(vault_id);
        self.put_vault(Vault {
            to_be_issued_tokens: 0,
            issued_tokens: 0,
            to_be_redeemed_tokens: 0,
            to_be_replaced_tokens: 0,
            backing_collateral: 0,
            status: VaultStatus::Liquidated,
            ..v
        });
        self.liquidation_vault = SystemVault {
            to_be_issued_tokens: n_tbi,
            issued_tokens: n_issued,
            to_be_redeemed_tokens: n_tbr,
        };
        self.liquidation_collateral = n_lc;
        self.collateral.set_balance(vault_id, nf, l);
        Ok(slashed)
    }

    /// Whether the vault's backing collateral is below threshold `t` for
    /// its outstanding position.
    pub(crate) fn vault_below_threshold(&self, vault_id: AccountId, t: UnsignedFixedPoint) -> (r:
        Result<
        bool,
        Error,
    >)
        requires
            self.inv(),
        ensures
            match r {
                Ok(b) => {
                    let v = self.vault_of(vault_id);
                    self.has_vault(vault_id)
                        && v.issued_tokens + v.to_be_issued_tokens <= u128::MAX
                        && self.threshold_computable(t, v.outstanding())
                        && b == self.spec_below_threshold(
                            v.backing_collateral as int,
                            v.outstanding(),
                            t,
                        )
                },
                Err(e) => {
                    ||| (e == Error::VaultNotFound && !self.has_vault(vault_id))
                    ||| (e == Error::ArithmeticOverflow && self.has_vault(vault_id)
                        && (self.vault_of(vault_id).issued_tokens
                            + self.vault_of(vault_id).to_be_issued_tokens > u128::MAX
                            || !self.threshold_computable(
                                t,
                                self.vault_of(vault_id).outstanding(),
                            )))
                },
            },
    {
        let v = self.get_vault_from_id(vault_id)?;
        let s = match v.issued_tokens.checked_add(v.to_be_issued_tokens) {
            Some(x) => x,
            None => {
                return Err(Error::ArithmeticOverflow);
            }
        };
        proof {
            self.lemma_vault_counters_ok(vault_id);
        }
        let outstanding = s - v.to_be_redeemed_tokens;
        self.is_collateral_below_threshold(v.backing_collateral, outstanding, t)
    }

    pub fn is_vault_below_secure_threshold(&self, vault_id: AccountId) -> (r: Result<bool, Error>)
        requires
            self.inv(),
        ensures
            r is Ok <==> self.has_vault(vault_id)
                && self.vault_of(vault_id).issued_tokens
                    + self.vault_of(vault_id).to_be_issued_tokens <= u128::MAX
                && self.threshold_computable(
                    self.params.secure_collateral_threshold,
                    self.vault_of(vault_id).outstanding(),
                ),
            r matches Ok(b) ==> b == self.spec_below_threshold(
                self.vault_of(vault_id).backing_collateral as int,
                self.vault_of(vault_id).outstanding(),
                self.params.secure_collateral_threshold,
            ),
            r matches Err(e) ==> if !self.has_vault(vault_id) {
                e == Error::VaultNotFound
            } else {
                e == Error::ArithmeticOverflow
            },
    {
        self.vault_below_threshold(vault_id, self.params.secure_collateral_threshold)
    }

    pub fn is_vault_below_premium_threshold(&self, vault_id: AccountId) -> (r: Result<
        bool,
        Error,
    >)
        requires
            self.inv(),
        ensures
            r is Ok <==> self.has_vault(vault_id)
                && self.vault_of(vault_id).issued_tokens
                    + self.vault_of(vault_id).to_be_issued_tokens <= u128::MAX
                && self.threshold_computable(
                    self.params.premium_redeem_threshold,
                    self.vault_of(vault_id).outstanding(),
                ),
            r matches Ok(b) ==> b == self.spec_below_threshold(
                self.vault_of(vault_id).backing_collateral as int,
                self.vault_of(vault_id).outstanding(),
                self.params.premium_redeem_threshold,
            ),
            r matches Err(e) ==> if !self.has_vault(vault_id) {
                e == Error::VaultNotFound
            } else {
                e == Error::ArithmeticOverflow
            },
    {
        self.vault_below_threshold(vault_id, self.params.premium_redeem_threshold)
    }

    pub fn is_vault_below_auction_threshold(&self, vault_id: AccountId) -> (r: Result<
        bool,
        Error,
    >)
        requires
            self.inv(),
        ensures
            r is Ok <==> self.has_vault(vault_id)
                && self.vault_of(vault_id).issued_tokens
                    + self.vault_of(vault_id).to_be_issued_tokens <= u128::MAX
                && self.threshold_computable(
                    self.params.auction_collateral_threshold,
                    self.vault_of(vault_id).outstanding(),
                ),
            r matches Ok(b) ==> b == self.spec_below_threshold(
                self.vault_of(vault_id).backing_collateral as int,
                self.vault_of(vault_id).outstanding(),
                self.params.auction_collateral_threshold,
            ),
            r matches Err(e) ==> if !self.has_vault(vault_id) {
                e == Error::VaultNotFound
            } else {
                e == Error::ArithmeticOverflow
            },
    {
        self.vault_below_threshold(vault_id, self.params.auction_collateral_threshold)
    }

    pub fn is_vault_below_liquidation_threshold(&self, vault_id: AccountId) -> (r: Result<
        bool,
        Error,
    >)
        requires
            self.inv(),
        ensures
            r is Ok <==> self.has_vault(vault_id)
                && self.vault_of(vault_id).issued_tokens
                    + self.vault_of(vault_id).to_be_issued_tokens <= u128::MAX
                && self.threshold_computable(
                    self.params.liquidation_collateral_threshold,
                    self.vault_of(vault_id).outstanding(),
                ),
            r matches Ok(b) ==> b == self.spec_below_threshold(
                self.vault_of(vault_id).backing_collateral as int,
                self.vault_of(vault_id).outstanding(),
                self.params.liquidation_collateral_threshold,
            ),
            r matches Err(e) ==> if !self.has_vault(vault_id) {
                e == Error::VaultNotFound
            } else {
                e == Error::ArithmeticOverflow
            },
    {
        self.vault_below_threshold(vault_id, self.params.liquidation_collateral_threshold)
    }

    /// The unique deposit address for one issue request with this vault.
    pub fn register_deposit_address(&self, vault_id: AccountId, issue_id: RequestId) -> (r:
        Result<BtcAddress, Error>)
        requires
            self.inv(),
        ensures
            match r {
                Ok(addr) => self.has_vault(vault_id) && addr.value == issue_id,
                Err(e) => e == Error::VaultNotFound && !self.has_vault(vault_id),
            },
    {
        let _ = self.get_vault_from_id(vault_id)?;
        Ok(BtcAddress::new(issue_id))
    }
}

} // verus!
