//! The redeem protocol: a user locks wBTC and asks a vault to send BTC on
//! the backing chain; the vault proves payment and executes, burning the
//! locked tokens; an expired request is cancelled by the user, who chooses
//! between reimbursement in DOT and getting the tokens back, while the
//! vault is punished. A user may also redeem directly against the
//! liquidation vault's collateral.

use vstd::prelude::*;
use crate::bridge::Bridge;
use crate::errors::Error;
use crate::fixed_point::FIXED_POINT_HALF;
use crate::table::{index_of_key, Keyed};
use crate::types::{
    AccountId, Amount, BtcAddress, BtcPayment, CancelRedeemEvent, CurrencySource,
    ExecuteRedeemEvent, LiquidationRedeemEvent, RedeemRequest, RequestId, RequestRedeemEvent,
    SystemVault, Vault,
};

verus! {

/// DOT paid out of the liquidation vault's collateral for `amount` wBTC:
/// the collateral scaled by the redeemed share of the liquidation vault's
/// position, rounded down.
pub open spec fn spec_liquidation_payout(lv: SystemVault, collateral: Amount, amount: Amount)
    -> int {
    let denom = lv.issued_tokens + lv.to_be_issued_tokens;
    if denom == 0 {
        0
    } else {
        (collateral * amount) / denom
    }
}

impl Bridge {
    /// The DOT premium attached to a redeem request: positive only when the
    /// vault is active and below the premium threshold at request time.
    pub open spec fn spec_redeem_premium(self, vault_id: AccountId, redeem_amount: int) -> int {
        let v = self.vault_of(vault_id);
        if !v.is_liquidated() && self.spec_below_threshold(
            v.backing_collateral as int,
            v.outstanding(),
            self.params.premium_redeem_threshold,
        ) {
            self.params.premium_redeem_fee.spec_mul_round_i(self.spec_value_of(redeem_amount))
        } else {
            0
        }
    }

    /// Conditions under which `request_redeem` succeeds.
    pub open spec fn spec_can_request_redeem(
        self,
        redeemer: AccountId,
        amount: Amount,
        vault_id: AccountId,
    ) -> bool {
        let fee = self.params.redeem_fee.spec_mul_round(amount);
        let ra = amount - fee;
        let v = self.vault_of(vault_id);
        &&& self.running
        &&& amount >= self.params.redeem_btc_dust_value
        &&& self.has_vault(vault_id)
        &&& self.params.redeem_fee.inner * amount + FIXED_POINT_HALF <= u128::MAX
        &&& fee <= amount
        &&& (!v.is_liquidated() ==> {
            &&& v.redeemable() >= ra
            &&& v.issued_tokens + v.to_be_issued_tokens <= u128::MAX
            &&& self.threshold_computable(self.params.premium_redeem_threshold, v.outstanding())
            &&& (self.spec_below_threshold(
                v.backing_collateral as int,
                v.outstanding(),
                self.params.premium_redeem_threshold,
            ) ==> self.exchange_rate.inner * ra <= u128::MAX
                && self.params.premium_redeem_fee.inner * self.spec_value_of(ra)
                    + FIXED_POINT_HALF <= u128::MAX)
        })
        &&& (v.is_liquidated() ==> self.liquidation_vault.redeemable() >= ra
            && self.liquidation_vault.to_be_redeemed_tokens + ra <= u128::MAX)
        &&& self.tokens_free(redeemer) >= amount
        &&& self.tokens_locked(redeemer) + amount <= u128::MAX
        &&& self.nonce < u64::MAX
    }

    /// The error kind `request_redeem` reports for a failing input, in the
    /// order its checks run.
    pub open spec fn spec_request_redeem_err(
        self,
        redeemer: AccountId,
        amount: Amount,
        vault_id: AccountId,
    ) -> Error {
        let fee = self.params.redeem_fee.spec_mul_round(amount);
        let ra = amount - fee;
        let v = self.vault_of(vault_id);
        let lv = self.liquidation_vault;
        if !self.running {
            Error::ParachainNotRunning
        } else if amount < self.params.redeem_btc_dust_value {
            Error::AmountBelowDustAmount
        } else if !self.has_vault(vault_id) {
            Error::VaultNotFound
        } else if self.params.redeem_fee.inner * amount + FIXED_POINT_HALF > u128::MAX {
            Error::ArithmeticOverflow
        } else if fee > amount {
            Error::ArithmeticUnderflow
        } else if v.is_liquidated() && lv.to_be_redeemed_tokens + ra > u128::MAX {
            Error::ArithmeticOverflow
        } else if v.is_liquidated() && lv.redeemable() < ra {
            Error::InsufficientTokensCommitted
        } else if !v.is_liquidated() && v.redeemable() < ra {
            Error::InsufficientTokensCommitted
        } else if !v.is_liquidated() && (v.issued_tokens + v.to_be_issued_tokens > u128::MAX
            || !self.threshold_computable(
                self.params.premium_redeem_threshold,
                v.outstanding(),
            )) {
            Error::ArithmeticOverflow
        } else if !v.is_liquidated() && self.spec_below_threshold(
            v.backing_collateral as int,
            v.outstanding(),
            self.params.premium_redeem_threshold,
        ) && (self.exchange_rate.inner * ra > u128::MAX
            || self.params.premium_redeem_fee.inner * self.spec_value_of(ra)
                + FIXED_POINT_HALF > u128::MAX) {
            Error::ArithmeticOverflow
        } else if self.tokens_free(redeemer) < amount {
            Error::InsufficientFunds
        } else if self.tokens_locked(redeemer) + amount > u128::MAX {
            Error::ArithmeticOverflow
        } else {
            // the remaining failing case: the request ids are exhausted
            Error::ArithmeticOverflow
        }
    }

    /// Opens a redeem request: locks the full amount of the redeemer's
    /// wBTC, commits the vault (or, when it is liquidated, the liquidation
    /// vault) to the amount net of the fee, and attaches a premium when the
    /// vault is under-collateralized.
    pub fn request_redeem(
        &mut self,
        redeemer: AccountId,
        amount_polka_btc: Amount,
        btc_address: BtcAddress,
        vault_id: AccountId,
    ) -> (r: Result<RequestRedeemEvent, Error>)
        requires
            old(self).inv(),
        ensures
            final(self).inv(),
            r is Ok <==> old(self).spec_can_request_redeem(redeemer, amount_polka_btc, vault_id),
            r matches Err(e) ==> *final(self) == *old(self) && e == old(
                self,
            ).spec_request_redeem_err(redeemer, amount_polka_btc, vault_id),
            r matches Ok(ev) ==> {
                let fee = (old(self).params.redeem_fee.spec_mul_round(amount_polka_btc)) as u128;
                let ra = (amount_polka_btc - fee) as u128;
                let redeem_id = old(self).nonce;
                let v = old(self).vault_of(vault_id);
                let liq = v.is_liquidated();
                let premium = (old(self).spec_redeem_premium(vault_id, ra as int)) as u128;
                &&& ev == (RequestRedeemEvent {
                    redeem_id,
                    redeemer,
                    amount_btc: ra,
                    fee,
                    premium,
                    vault_id,
                    btc_address,
                })
                &&& *final(self) == (Bridge {
                    vaults: final(self).vaults,
                    liquidation_vault: final(self).liquidation_vault,
                    treasury: final(self).treasury,
                    redeem_requests: final(self).redeem_requests,
                    nonce: (old(self).nonce + 1) as u64,
                    ..*old(self)
                })
                &&& !old(self).has_redeem(redeem_id)
                &&& final(self).has_redeem(redeem_id)
                &&& final(self).redeem_of(redeem_id) == (RedeemRequest {
                    id: redeem_id,
                    redeemer,
                    vault: vault_id,
                    opentime: old(self).current_height,
                    amount_btc: ra,
                    fee,
                    premium,
                    btc_address,
                    completed: false,
                    cancelled: false,
                    reimburse: false,
                })
                &&& forall|x: RequestId| x != redeem_id
                    ==> (final(self).has_redeem(x) <==> old(self).has_redeem(x))
                &&& forall|x: RequestId| x != redeem_id && old(self).has_redeem(x)
                    ==> final(self).redeem_of(x) == old(self).redeem_of(x)
                &&& (liq ==> final(self).vaults@ == old(self).vaults@
                    && final(self).liquidation_vault == (SystemVault {
                        to_be_redeemed_tokens: (old(self).liquidation_vault.to_be_redeemed_tokens
                            + ra) as u128,
                        ..old(self).liquidation_vault
                    }))
                &&& (!liq ==> {
                    let new_tbr = (v.to_be_redeemed_tokens + ra) as u128;
                    let spare = (v.issued_tokens - new_tbr) as u128;
                    &&& final(self).liquidation_vault == old(self).liquidation_vault
                    &&& final(self).vault_of(vault_id) == (Vault {
                        to_be_redeemed_tokens: new_tbr,
                        to_be_replaced_tokens: if v.to_be_replaced_tokens <= spare {
                            v.to_be_replaced_tokens
                        } else {
                            spare
                        },
                        ..v
                    })
                    &&& forall|x: AccountId| (final(self).has_vault(x)
                        <==> old(self).has_vault(x))
                    &&& forall|x: AccountId| x != vault_id && old(self).has_vault(x)
                        ==> final(self).vault_of(x) == old(self).vault_of(x)
                })
                &&& final(self).tokens_free(redeemer) == old(self).tokens_free(redeemer)
                    - amount_polka_btc
                &&& final(self).tokens_locked(redeemer) == old(self).tokens_locked(redeemer)
                    + amount_polka_btc
                &&& forall|a: AccountId| a != redeemer
                    ==> final(self).tokens_free(a) == old(self).tokens_free(a)
                        && final(self).tokens_locked(a) == old(self).tokens_locked(a)
                &&& final(self).total_supply() == old(self).total_supply()
                &&& final(self).total_issued() == old(self).total_issued()
            },
    {
        self.ensure_parachain_status_running()?;
        if amount_polka_btc < self.params.redeem_btc_dust_value {
            return Err(Error::AmountBelowDustAmount);
        }
        let v = self.get_vault_from_id(vault_id)?;
        let fee = self.get_redeem_fee(amount_polka_btc)?;
        let ra = match amount_polka_btc.checked_sub(fee) {
            Some(x) => x,
            None => {
                return Err(Error::ArithmeticUnderflow);
            }
        };
        let liquidated = matches!(v.status, crate::types::VaultStatus::Liquidated);
        let mut premium: u128 = 0;
        if liquidated {
            let lv = self.liquidation_vault;
            let need = match lv.to_be_redeemed_tokens.checked_add(ra) {
                Some(x) => x,
                None => {
                    return Err(Error::ArithmeticOverflow);
                }
            };
            let enough = if need <= lv.issued_tokens {
                true
            } else {
                need - lv.issued_tokens <= lv.to_be_issued_tokens
            };
            if !enough {
                return Err(Error::InsufficientTokensCommitted);
            }
        } else {
            proof {
                self.lemma_vault_counters_ok(vault_id);
            }
            if v.issued_tokens - v.to_be_redeemed_tokens < ra {
                return Err(Error::InsufficientTokensCommitted);
            }
            let below = self.vault_below_threshold(
                vault_id,
                self.params.premium_redeem_threshold,
            )?;
            if below {
                let value = self.btc_to_dots(ra)?;
                premium = self.get_premium_redeem_fee(value)?;
            }
        }
        let tf = self.treasury.get_free(redeemer);
        if tf < amount_polka_btc {
            return Err(Error::InsufficientFunds);
        }
        let tl = self.treasury.get_locked(redeemer);
        if tl.checked_add(amount_polka_btc).is_none() {
            return Err(Error::ArithmeticOverflow);
        }
        if self.nonce == u64::MAX {
            return Err(Error::ArithmeticOverflow);
        }
        // commit phase
        if liquidated {
            let lv = self.liquidation_vault;
            self.liquidation_vault = SystemVault {
                to_be_redeemed_tokens: lv.to_be_redeemed_tokens + ra,
                ..lv
            };
        } else {
            match self.try_increase_to_be_redeemed_tokens(vault_id, ra) {
                Ok(()) => {}
                Err(e) => {
                    proof {
                        assert(false);
                    }
                    return Err(e);
                }
            }
        }
        let ghost s1 = *self;
        let redeem_id = match self.get_secure_id() {
            Ok(id) => id,
            Err(e) => {
                proof {
                    assert(false);
                }
                return Err(e);
            }
        };
        let ghost s2 = *self;
        match self.lock_tokens(redeemer, amount_polka_btc) {
            Ok(()) => {}
            Err(e) => {
                proof {
                    assert(false);
                }
                return Err(e);
            }
        }
        let ghost s3 = *self;
        proof {
            if self.has_redeem(redeem_id) {
                let i = index_of_key(self.redeem_requests@, redeem_id);
                assert(0 <= i < self.redeem_requests@.len()
                    && self.redeem_requests@[i].key() == redeem_id);
                assert(old(self).redeem_requests@[i].id < old(self).nonce);
            }
        }
        self.push_redeem(RedeemRequest {
            id: redeem_id,
            redeemer,
            vault: vault_id,
            opentime: self.current_height,
            amount_btc: ra,
            fee,
            premium,
            btc_address,
            completed: false,
            cancelled: false,
            reimburse: false,
        });
        proof {
            Bridge::lemma_same_vault_views(s1, *self);
            if liquidated {
                Bridge::lemma_same_vault_views(*old(self), *self);
            }
            Bridge::lemma_same_treasury_views(*old(self), s2);
            Bridge::lemma_same_treasury_views(s3, *self);
            Bridge::lemma_same_redeem_views(*old(self), s3);
            Bridge::lemma_same_collateral_views(*old(self), *self);
        }
        Ok(RequestRedeemEvent {
            redeem_id,
            redeemer,
            amount_btc: ra,
            fee,
            premium,
            vault_id,
            btc_address,
        })
    }

    /// Conditions under which `execute_redeem` succeeds.
    pub open spec fn spec_can_execute_redeem(self, redeem_id: RequestId, payment: BtcPayment)
        -> bool {
        let req = self.redeem_of(redeem_id);
        let total = req.amount_btc + req.fee;
        let v = self.vault_of(req.vault);
        let lv = self.liquidation_vault;
        &&& self.running
        &&& self.has_redeem(redeem_id)
        &&& req.is_open()
        &&& !(req.opentime + self.params.redeem_period < self.current_height)
        &&& payment.recipient == req.btc_address
        &&& payment.amount >= req.amount_btc
        &&& payment.op_return == Some(redeem_id)
        &&& self.has_vault(req.vault)
        &&& total <= u128::MAX
        &&& self.tokens_locked(req.redeemer) >= total
        &&& self.tokens_free(self.params.fee_pool_account_id) + req.fee <= u128::MAX
        &&& (v.is_liquidated() ==> lv.to_be_redeemed_tokens >= req.amount_btc
            && lv.issued_tokens >= req.amount_btc)
        &&& (!v.is_liquidated() ==> {
            &&& v.to_be_redeemed_tokens >= req.amount_btc
            &&& (req.premium > 0 ==> v.backing_collateral >= req.premium
                && self.dot_free(req.redeemer) + req.premium <= u128::MAX)
        })
    }

    /// The error kind `execute_redeem` reports for a failing input, in the
    /// order its checks run.
    pub open spec fn spec_execute_redeem_err(self, redeem_id: RequestId, payment: BtcPayment)
        -> Error {
        let req = self.redeem_of(redeem_id);
        let ab = req.amount_btc;
        let total = ab + req.fee;
        let v = self.vault_of(req.vault);
        if !self.running {
            Error::ParachainNotRunning
        } else if !self.has_redeem(redeem_id) {
            Error::RedeemIdNotFound
        } else if req.completed {
            Error::RedeemCompleted
        } else if req.cancelled {
            Error::RedeemCancelled
        } else if req.opentime + self.params.redeem_period < self.current_height {
            Error::CommitPeriodExpired
        } else if payment.recipient != req.btc_address || payment.amount < ab
            || payment.op_return != Some(redeem_id) {
            Error::InvalidPayment
        } else if !self.has_vault(req.vault) {
            Error::VaultNotFound
        } else if total > u128::MAX {
            Error::ArithmeticOverflow
        } else if self.tokens_locked(req.redeemer) < total {
            Error::InsufficientFunds
        } else if self.tokens_free(self.params.fee_pool_account_id) + req.fee > u128::MAX {
            Error::ArithmeticOverflow
        } else if v.is_liquidated() {
            // the liquidation vault is short of issued or to-be-redeemed stock
            Error::ArithmeticUnderflow
        } else if v.to_be_redeemed_tokens < ab {
            Error::ArithmeticUnderflow
        } else if req.premium > 0 && v.backing_collateral < req.premium {
            Error::InsufficientFunds
        } else {
            // the remaining failing case is the redeemer's balance ceiling
            Error::ArithmeticOverflow
        }
    }

    /// Completes a redeem request against the attested payment: the locked
    /// wBTC is burned, the fee re-minted to the fee pool, the vault's
    /// issued and to-be-redeemed counters fall by the amount sent, and any
    /// premium moves from the vault's backing to the redeemer.
    pub fn execute_redeem(&mut self, redeem_id: RequestId, payment: BtcPayment) -> (r: Result<
        ExecuteRedeemEvent,
        Error,
    >)
        requires
            old(self).inv(),
        ensures
            final(self).inv(),
            r is Ok <==> old(self).spec_can_execute_redeem(redeem_id, payment),
            r matches Err(e) ==> *final(self) == *old(self) && e == old(
                self,
            ).spec_execute_redeem_err(redeem_id, payment),
            r matches Ok(ev) ==> {
                let req = old(self).redeem_of(redeem_id);
                let total = (req.amount_btc + req.fee) as u128;
                let v = old(self).vault_of(req.vault);
                let lv = old(self).liquidation_vault;
                let liq = v.is_liquidated();
                let pool = old(self).params.fee_pool_account_id;
                &&& ev == (ExecuteRedeemEvent {
                    redeem_id,
                    redeemer: req.redeemer,
                    vault_id: req.vault,
                    amount_btc: req.amount_btc,
                    fee: req.fee,
                })
                &&& *final(self) == (Bridge {
                    vaults: final(self).vaults,
                    liquidation_vault: final(self).liquidation_vault,
                    collateral: final(self).collateral,
                    treasury: final(self).treasury,
                    redeem_requests: final(self).redeem_requests,
                    ..*old(self)
                })
                &&& final(self).redeem_of(redeem_id) == (RedeemRequest {
                    completed: true,
                    ..req
                })
                &&& forall|x: RequestId| x != redeem_id
                    ==> (final(self).has_redeem(x) <==> old(self).has_redeem(x))
                &&& forall|x: RequestId| x != redeem_id && old(self).has_redeem(x)
                    ==> final(self).redeem_of(x) == old(self).redeem_of(x)
                &&& (liq ==> {
                    &&& final(self).vaults@ == old(self).vaults@
                    &&& final(self).liquidation_vault == (SystemVault {
                        issued_tokens: (lv.issued_tokens - req.amount_btc) as u128,
                        to_be_redeemed_tokens: (lv.to_be_redeemed_tokens
                            - req.amount_btc) as u128,
                        ..lv
                    })
                    &&& forall|a: AccountId| final(self).dot_free(a) == old(self).dot_free(a)
                        && final(self).dot_locked(a) == old(self).dot_locked(a)
                })
                &&& (!liq ==> {
                    &&& final(self).liquidation_vault == old(self).liquidation_vault
                    &&& final(self).vault_of(req.vault) == (Vault {
                        issued_tokens: (v.issued_tokens - req.amount_btc) as u128,
                        to_be_redeemed_tokens: (v.to_be_redeemed_tokens
                            - req.amount_btc) as u128,
                        backing_collateral: (v.backing_collateral - req.premium) as u128,
                        ..v
                    })
                    &&& forall|x: AccountId| (final(self).has_vault(x)
                        <==> old(self).has_vault(x))
                    &&& forall|x: AccountId| x != req.vault && old(self).has_vault(x)
                        ==> final(self).vault_of(x) == old(self).vault_of(x)
                    &&& final(self).dot_free(req.redeemer) == old(self).dot_free(req.redeemer)
                        + req.premium
                    &&& forall|a: AccountId| a != req.redeemer
                        ==> final(self).dot_free(a) == old(self).dot_free(a)
                    &&& forall|a: AccountId| final(self).dot_locked(a) == old(self).dot_locked(a)
                })
                &&& final(self).tokens_locked(req.redeemer)
                    == old(self).tokens_locked(req.redeemer) - total
                &&& (req.redeemer == pool ==> final(self).tokens_free(pool)
                    == old(self).tokens_free(pool) + req.fee)
                &&& (req.redeemer != pool ==> final(self).tokens_free(pool)
                    == old(self).tokens_free(pool) + req.fee
                    && final(self).tokens_free(req.redeemer)
                        == old(self).tokens_free(req.redeemer))
                &&& forall|a: AccountId| a != req.redeemer && a != pool
                    ==> final(self).tokens_free(a) == old(self).tokens_free(a)
                        && final(self).tokens_locked(a) == old(self).tokens_locked(a)
                &&& final(self).total_supply() == old(self).total_supply() - req.amount_btc
                &&& final(self).total_issued() == old(self).total_issued() - req.amount_btc
                &&& (old(self).supply_matches_issued() ==> final(self).supply_matches_issued())
            },
    {
        self.ensure_parachain_status_running()?;
        let req = self.get_open_redeem_request_from_id(redeem_id)?;
        if self.has_request_expired(req.opentime, self.params.redeem_period) {
            return Err(Error::CommitPeriodExpired);
        }
        let valid_op_return = match payment.op_return {
            Some(id) => id == redeem_id,
            None => false,
        };
        if payment.recipient != req.btc_address || payment.amount < req.amount_btc
            || !valid_op_return {
            return Err(Error::InvalidPayment);
        }
        let v = self.get_vault_from_id(req.vault)?;
        let total = match req.amount_btc.checked_add(req.fee) {
            Some(x) => x,
            None => {
                return Err(Error::ArithmeticOverflow);
            }
        };
        let tl = self.treasury.get_locked(req.redeemer);
        if tl < total {
            return Err(Error::InsufficientFunds);
        }
        let pool = self.params.fee_pool_account_id;
        let pf = self.treasury.get_free(pool);
        if pf.checked_add(req.fee).is_none() {
            return Err(Error::ArithmeticOverflow);
        }
        let liquidated = matches!(v.status, crate::types::VaultStatus::Liquidated);
        if liquidated {
            let lv = self.liquidation_vault;
            if lv.to_be_redeemed_tokens < req.amount_btc || lv.issued_tokens < req.amount_btc {
                return Err(Error::ArithmeticUnderflow);
            }
        } else {
            if v.to_be_redeemed_tokens < req.amount_btc {
                return Err(Error::ArithmeticUnderflow);
            }
            if req.premium > 0 {
                if v.backing_collateral < req.premium {
                    return Err(Error::InsufficientFunds);
                }
                let uf = self.collateral.get_free(req.redeemer);
                if uf.checked_add(req.premium).is_none() {
                    return Err(Error::ArithmeticOverflow);
                }
            }
        }
        // commit phase
        match self.burn_locked_tokens(req.redeemer, total) {
            Ok(()) => {}
            Err(e) => {
                proof {
                    assert(false);
                }
                return Err(e);
            }
        }
        let ghost s1 = *self;
        match self.mint(pool, req.fee) {
            Ok(()) => {}
            Err(e) => {
                proof {
                    assert(false);
                }
                return Err(e);
            }
        }
        let ghost s2 = *self;
        match self.decrease_tokens(req.vault, req.amount_btc) {
            Ok(()) => {}
            Err(e) => {
                proof {
                    assert(false);
                }
                return Err(e);
            }
        }
        let ghost s3 = *self;
        if !liquidated && req.premium > 0 {
            match self.slash_collateral(
                CurrencySource::Backing(req.vault),
                CurrencySource::FreeBalance(req.redeemer),
                req.premium,
            ) {
                Ok(()) => {}
                Err(e) => {
                    proof {
                        assert(false);
                    }
                    return Err(e);
                }
            }
        }
        let ghost s4 = *self;
        self.put_redeem(RedeemRequest { completed: true, ..req });
        proof {
            Bridge::lemma_same_treasury_views(s2, *self);
            Bridge::lemma_same_collateral_views(*old(self), s3);
            Bridge::lemma_same_collateral_views(s4, *self);
            Bridge::lemma_same_vault_views(*old(self), s2);
            Bridge::lemma_same_vault_views(s4, *self);
            if liquidated {
                Bridge::lemma_same_vault_views(*old(self), *self);
                Bridge::lemma_same_collateral_views(*old(self), *self);
            }
            Bridge::lemma_same_redeem_views(*old(self), s4);
        }
        Ok(ExecuteRedeemEvent {
            redeem_id,
            redeemer: req.redeemer,
            vault_id: req.vault,
            amount_btc: req.amount_btc,
            fee: req.fee,
        })
    }

    /// Conditions under which `cancel_redeem` succeeds.
    pub open spec fn spec_can_cancel_redeem(
        self,
        caller: AccountId,
        redeem_id: RequestId,
        reimburse: bool,
    ) -> bool {
        let req = self.redeem_of(redeem_id);
        let ab = req.amount_btc;
        let total = ab + req.fee;
        let v = self.vault_of(req.vault);
        let lv = self.liquidation_vault;
        let amount_dot = self.spec_value_of(ab as int);
        let punishment = self.params.punishment_fee.spec_mul_round_i(amount_dot);
        &&& self.has_redeem(redeem_id)
        &&& req.is_open()
        &&& caller == req.redeemer
        &&& req.opentime + self.params.redeem_period < self.current_height
        &&& self.has_vault(req.vault)
        &&& total <= u128::MAX
        &&& self.tokens_locked(req.redeemer) >= total
        &&& (!v.is_liquidated() ==> {
            &&& self.exchange_rate.inner * ab <= u128::MAX
            &&& self.params.punishment_fee.inner * amount_dot + FIXED_POINT_HALF <= u128::MAX
            &&& self.current_height + self.params.punishment_delay <= u64::MAX
            &&& v.to_be_redeemed_tokens >= ab
            &&& (reimburse ==> {
                &&& punishment + amount_dot <= u128::MAX
                &&& v.backing_collateral >= punishment + amount_dot
                &&& self.dot_free(req.redeemer) + punishment + amount_dot <= u128::MAX
                &&& self.tokens_free(req.redeemer) + req.fee <= u128::MAX
            })
            &&& (!reimburse ==> {
                &&& v.backing_collateral >= punishment
                &&& self.dot_free(req.redeemer) + punishment <= u128::MAX
                &&& self.tokens_free(req.redeemer) + total <= u128::MAX
            })
        })
        &&& (v.is_liquidated() ==> {
            &&& lv.to_be_redeemed_tokens >= ab
            &&& (reimburse ==> {
                &&& lv.issued_tokens >= ab
                &&& lv.issued_tokens + lv.to_be_issued_tokens <= u128::MAX
                &&& (lv.issued_tokens + lv.to_be_issued_tokens > 0
                    ==> self.liquidation_collateral * ab <= u128::MAX)
                &&& self.dot_free(req.redeemer)
                    + spec_liquidation_payout(lv, self.liquidation_collateral, ab) <= u128::MAX
                &&& self.tokens_free(req.redeemer) + req.fee <= u128::MAX
            })
            &&& (!reimburse ==> self.tokens_free(req.redeemer) + total <= u128::MAX)
        })
    }

    /// The error kind `cancel_redeem` reports for a failing input, in the
    /// order its checks run.
    pub open spec fn spec_cancel_redeem_err(
        self,
        caller: AccountId,
        redeem_id: RequestId,
        reimburse: bool,
    ) -> Error {
        let req = self.redeem_of(redeem_id);
        let ab = req.amount_btc;
        let total = ab + req.fee;
        let v = self.vault_of(req.vault);
        let lv = self.liquidation_vault;
        let amount_dot = self.spec_value_of(ab as int);
        let punishment = self.params.punishment_fee.spec_mul_round_i(amount_dot);
        if !self.has_redeem(redeem_id) {
            Error::RedeemIdNotFound
        } else if req.completed {
            Error::RedeemCompleted
        } else if req.cancelled {
            Error::RedeemCancelled
        } else if caller != req.redeemer {
            Error::UnauthorizedVault
        } else if !(req.opentime + self.params.redeem_period < self.current_height) {
            Error::TimeNotExpired
        } else if !self.has_vault(req.vault) {
            Error::VaultNotFound
        } else if total > u128::MAX {
            Error::ArithmeticOverflow
        } else if self.tokens_locked(req.redeemer) < total {
            Error::InsufficientFunds
        } else if v.is_liquidated() {
            if lv.to_be_redeemed_tokens < ab {
                Error::ArithmeticUnderflow
            } else if reimburse && lv.issued_tokens < ab {
                Error::ArithmeticUnderflow
            } else {
                // the remaining failing cases are scaled products and
                // balance ceilings
                Error::ArithmeticOverflow
            }
        } else {
            if self.exchange_rate.inner * ab > u128::MAX {
                Error::ArithmeticOverflow
            } else if self.params.punishment_fee.inner * amount_dot + FIXED_POINT_HALF
                > u128::MAX {
                Error::ArithmeticOverflow
            } else if self.current_height + self.params.punishment_delay > u64::MAX {
                Error::ArithmeticOverflow
            } else if v.to_be_redeemed_tokens < ab {
                Error::ArithmeticUnderflow
            } else if reimburse && punishment + amount_dot > u128::MAX {
                Error::ArithmeticOverflow
            } else if reimburse && v.backing_collateral < punishment + amount_dot {
                Error::InsufficientFunds
            } else if !reimburse && v.backing_collateral < punishment {
                Error::InsufficientFunds
            } else {
                // the remaining failing cases are balance ceilings
                Error::ArithmeticOverflow
            }
        }
    }

    /// Cancels an expired redeem request. On an active vault the redeemer
    /// receives a punishment fee out of the vault's backing, and either —
    /// with `reimburse` — the DOT value of the amount while the locked
    /// wBTC is burned (the fee re-minted to the redeemer), or the locked
    /// wBTC back intact; the vault is banned. On a liquidated vault the
    /// payment comes pro rata out of the liquidation vault's collateral.
    pub fn cancel_redeem(&mut self, caller: AccountId, redeem_id: RequestId, reimburse: bool)
        -> (r: Result<CancelRedeemEvent, Error>)
        requires
            old(self).inv(),
        ensures
            final(self).inv(),
            r is Ok <==> old(self).spec_can_cancel_redeem(caller, redeem_id, reimburse),
            r matches Err(e) ==> *final(self) == *old(self) && e == old(
                self,
            ).spec_cancel_redeem_err(caller, redeem_id, reimburse),
            r matches Ok(ev) ==> {
                let req = old(self).redeem_of(redeem_id);
                let ab = req.amount_btc;
                let total = (ab + req.fee) as u128;
                let v = old(self).vault_of(req.vault);
                let lv = old(self).liquidation_vault;
                let liq = v.is_liquidated();
                let amount_dot = old(self).spec_value_of(ab as int);
                let punishment = old(self).params.punishment_fee.spec_mul_round_i(amount_dot);
                let payout = spec_liquidation_payout(lv, old(self).liquidation_collateral, ab);
                &&& ev == (CancelRedeemEvent {
                    redeem_id,
                    redeemer: req.redeemer,
                    reimburse,
                    punishment: if liq { 0 } else { punishment as u128 },
                    reimbursement: if !reimburse { 0 } else if liq {
                        payout as u128
                    } else {
                        amount_dot as u128
                    },
                })
                &&& *final(self) == (Bridge {
                    vaults: final(self).vaults,
                    liquidation_vault: final(self).liquidation_vault,
                    liquidation_collateral: final(self).liquidation_collateral,
                    collateral: final(self).collateral,
                    treasury: final(self).treasury,
                    redeem_requests: final(self).redeem_requests,
                    ..*old(self)
                })
                &&& final(self).redeem_of(redeem_id) == (RedeemRequest {
                    cancelled: true,
                    reimburse,
                    ..req
                })
                &&& forall|x: RequestId| x != redeem_id
                    ==> (final(self).has_redeem(x) <==> old(self).has_redeem(x))
                &&& forall|x: RequestId| x != redeem_id && old(self).has_redeem(x)
                    ==> final(self).redeem_of(x) == old(self).redeem_of(x)
                &&& (!liq ==> {
                    &&& final(self).liquidation_vault == lv
                    &&& final(self).liquidation_collateral == old(self).liquidation_collateral
                    &&& final(self).vault_of(req.vault) == (Vault {
                        issued_tokens: if reimburse {
                            (v.issued_tokens - ab) as u128
                        } else {
                            v.issued_tokens
                        },
                        to_be_redeemed_tokens: (v.to_be_redeemed_tokens - ab) as u128,
                        backing_collateral: if reimburse {
                            (v.backing_collateral - punishment - amount_dot) as u128
                        } else {
                            (v.backing_collateral - punishment) as u128
                        },
                        banned_until: Some(
                            (old(self).current_height
                                + old(self).params.punishment_delay) as u64,
                        ),
                        ..v
                    })
                    &&& forall|x: AccountId| (final(self).has_vault(x)
                        <==> old(self).has_vault(x))
                    &&& forall|x: AccountId| x != req.vault && old(self).has_vault(x)
                        ==> final(self).vault_of(x) == old(self).vault_of(x)
                    &&& final(self).dot_free(req.redeemer) == old(self).dot_free(req.redeemer)
                        + punishment + (if reimburse { amount_dot } else { 0 })
                    &&& forall|a: AccountId| a != req.redeemer
                        ==> final(self).dot_free(a) == old(self).dot_free(a)
                    &&& forall|a: AccountId| final(self).dot_locked(a) == old(self).dot_locked(a)
                    &&& final(self).total_issued() == old(self).total_issued()
                        - (if reimburse { ab as int } else { 0 })
                })
                &&& (liq ==> {
                    &&& final(self).vaults@ == old(self).vaults@
                    &&& final(self).liquidation_vault == (SystemVault {
                        issued_tokens: if reimburse {
                            (lv.issued_tokens - ab) as u128
                        } else {
                            lv.issued_tokens
                        },
                        to_be_redeemed_tokens: (lv.to_be_redeemed_tokens - ab) as u128,
                        ..lv
                    })
                    &&& final(self).liquidation_collateral == old(self).liquidation_collateral
                        - (if reimburse { payout } else { 0 })
                    &&& final(self).dot_free(req.redeemer) == old(self).dot_free(req.redeemer)
                        + (if reimburse { payout } else { 0 })
                    &&& forall|a: AccountId| a != req.redeemer
                        ==> final(self).dot_free(a) == old(self).dot_free(a)
                    &&& forall|a: AccountId| final(self).dot_locked(a) == old(self).dot_locked(a)
                    &&& final(self).total_issued() == old(self).total_issued()
                        - (if reimburse { ab as int } else { 0 })
                })
                &&& final(self).tokens_locked(req.redeemer)
                    == old(self).tokens_locked(req.redeemer) - total
                &&& final(self).tokens_free(req.redeemer) == old(self).tokens_free(req.redeemer)
                    + (if reimburse { req.fee as int } else { total as int })
                &&& forall|a: AccountId| a != req.redeemer
                    ==> final(self).tokens_free(a) == old(self).tokens_free(a)
                        && final(self).tokens_locked(a) == old(self).tokens_locked(a)
                &&& final(self).total_supply() == old(self).total_supply()
                    - (if reimburse { ab as int } else { 0 })
                &&& (old(self).supply_matches_issued() ==> final(self).supply_matches_issued())
            },
    {
        let req = self.get_open_redeem_request_from_id(redeem_id)?;
        if caller != req.redeemer {
            return Err(Error::UnauthorizedVault);
        }
        if !self.has_request_expired(req.opentime, self.params.redeem_period) {
            return Err(Error::TimeNotExpired);
        }
        let v = self.get_vault_from_id(req.vault)?;
        let ab = req.amount_btc;
        let total = match ab.checked_add(req.fee) {
            Some(x) => x,
            None => {
                return Err(Error::ArithmeticOverflow);
            }
        };
        let tl = self.treasury.get_locked(req.redeemer);
        if tl < total {
            return Err(Error::InsufficientFunds);
        }
        let tf = self.treasury.get_free(req.redeemer);
        let mut punishment_ev: u128 = 0;
        let mut reimbursement_ev: u128 = 0;
        let liquidated = matches!(v.status, crate::types::VaultStatus::Liquidated);
        if liquidated {
            let lv = self.liquidation_vault;
            if lv.to_be_redeemed_tokens < ab {
                return Err(Error::ArithmeticUnderflow);
            }
            if reimburse {
                if lv.issued_tokens < ab {
                    return Err(Error::ArithmeticUnderflow);
                }
                let denom = match lv.issued_tokens.checked_add(lv.to_be_issued_tokens) {
                    Some(x) => x,
                    None => {
                        return Err(Error::ArithmeticOverflow);
                    }
                };
                let payout: u128 = if denom == 0 {
                    0
                } else {
                    let p = match self.liquidation_collateral.checked_mul(ab) {
                        Some(x) => x,
                        None => {
                            return Err(Error::ArithmeticOverflow);
                        }
                    };
                    p / denom
                };
                proof {
                    if denom != 0 {
                        crate::vault_registry::lemma_slash_le_backing(
                            self.liquidation_collateral as int,
                            ab as int,
                            denom as int,
                        );
                    }
                }
                let uf = self.collateral.get_free(req.redeemer);
                if uf.checked_add(payout).is_none() {
                    return Err(Error::ArithmeticOverflow);
                }
                if tf.checked_add(req.fee).is_none() {
                    return Err(Error::ArithmeticOverflow);
                }
                reimbursement_ev = payout;
                // commit
                match self.burn_locked_tokens(req.redeemer, total) {
                    Ok(()) => {}
                    Err(e) => {
                        proof {
                            assert(false);
                        }
                        return Err(e);
                    }
                }
                let ghost s1 = *self;
                match self.mint(req.redeemer, req.fee) {
                    Ok(()) => {}
                    Err(e) => {
                        proof {
                            assert(false);
                        }
                        return Err(e);
                    }
                }
                let ghost s2 = *self;
                match self.decrease_tokens(req.vault, ab) {
                    Ok(()) => {}
                    Err(e) => {
                        proof {
                            assert(false);
                        }
                        return Err(e);
                    }
                }
                let ghost s3 = *self;
                match self.slash_collateral(
                    CurrencySource::LiquidationVault,
                    CurrencySource::FreeBalance(req.redeemer),
                    payout,
                ) {
                    Ok(()) => {}
                    Err(e) => {
                        proof {
                            assert(false);
                        }
                        return Err(e);
                    }
                }
                proof {
                    Bridge::lemma_same_collateral_views(*old(self), s3);
                    Bridge::lemma_same_treasury_views(s2, *self);
                    Bridge::lemma_same_vault_views(*old(self), *self);
                }
            } else {
                if tf.checked_add(total).is_none() {
                    return Err(Error::ArithmeticOverflow);
                }
                // commit
                match self.unlock_tokens(req.redeemer, total) {
                    Ok(()) => {}
                    Err(e) => {
                        proof {
                            assert(false);
                        }
                        return Err(e);
                    }
                }
                let ghost s1 = *self;
                match self.decrease_to_be_redeemed_tokens(req.vault, ab) {
                    Ok(()) => {}
                    Err(e) => {
                        proof {
                            assert(false);
                        }
                        return Err(e);
                    }
                }
                proof {
                    Bridge::lemma_same_collateral_views(*old(self), *self);
                    Bridge::lemma_same_treasury_views(s1, *self);
                    Bridge::lemma_same_vault_views(*old(self), *self);
                }
            }
        } else {
            let amount_dot = self.btc_to_dots(ab)?;
            let punishment = self.get_punishment_fee(amount_dot)?;
            let until = match self.current_height.checked_add(self.params.punishment_delay) {
                Some(x) => x,
                None => {
                    return Err(Error::ArithmeticOverflow);
                }
            };
            if v.to_be_redeemed_tokens < ab {
                return Err(Error::ArithmeticUnderflow);
            }
            let uf = self.collateral.get_free(req.redeemer);
            punishment_ev = punishment;
            if reimburse {
                let slash_amt = match punishment.checked_add(amount_dot) {
                    Some(x) => x,
                    None => {
                        return Err(Error::ArithmeticOverflow);
                    }
                };
                if v.backing_collateral < slash_amt {
                    return Err(Error::InsufficientFunds);
                }
                if uf.checked_add(slash_amt).is_none() {
                    return Err(Error::ArithmeticOverflow);
                }
                if tf.checked_add(req.fee).is_none() {
                    return Err(Error::ArithmeticOverflow);
                }
                reimbursement_ev = amount_dot;
                // commit
                match self.slash_collateral(
                    CurrencySource::Backing(req.vault),
                    CurrencySource::FreeBalance(req.redeemer),
                    slash_amt,
                ) {
                    Ok(()) => {}
                    Err(e) => {
                        proof {
                            assert(false);
                        }
                        return Err(e);
                    }
                }
                let ghost s1 = *self;
                match self.burn_locked_tokens(req.redeemer, total) {
                    Ok(()) => {}
                    Err(e) => {
                        proof {
                            assert(false);
                        }
                        return Err(e);
                    }
                }
                let ghost s2 = *self;
                match self.mint(req.redeemer, req.fee) {
                    Ok(()) => {}
                    Err(e) => {
                        proof {
                            assert(false);
                        }
                        return Err(e);
                    }
                }
                let ghost s3 = *self;
                match self.decrease_tokens(req.vault, ab) {
                    Ok(()) => {}
                    Err(e) => {
                        proof {
                            assert(false);
                        }
                        return Err(e);
                    }
                }
                match self.ban_vault_until(req.vault, until) {
                    Ok(()) => {}
                    Err(e) => {
                        proof {
                            assert(false);
                        }
                        return Err(e);
                    }
                }
                proof {
                    Bridge::lemma_same_collateral_views(s1, *self);
                    Bridge::lemma_same_treasury_views(*old(self), s1);
                    Bridge::lemma_same_treasury_views(s3, *self);
                    Bridge::lemma_same_vault_views(s1, s3);
                }
            } else {
                if v.backing_collateral < punishment {
                    return Err(Error::InsufficientFunds);
                }
                if uf.checked_add(punishment).is_none() {
                    return Err(Error::ArithmeticOverflow);
                }
                if tf.checked_add(total).is_none() {
                    return Err(Error::ArithmeticOverflow);
                }
                // commit
                match self.slash_collateral(
                    CurrencySource::Backing(req.vault),
                    CurrencySource::FreeBalance(req.redeemer),
                    punishment,
                ) {
                    Ok(()) => {}
                    Err(e) => {
                        proof {
                            assert(false);
                        }
                        return Err(e);
                    }
                }
                let ghost s1 = *self;
                match self.unlock_tokens(req.redeemer, total) {
                    Ok(()) => {}
                    Err(e) => {
                        proof {
                            assert(false);
                        }
                        return Err(e);
                    }
                }
                let ghost s2 = *self;
                match self.decrease_to_be_redeemed_tokens(req.vault, ab) {
                    Ok(()) => {}
                    Err(e) => {
                        proof {
                            assert(false);
                        }
                        return Err(e);
                    }
                }
                match self.ban_vault_until(req.vault, until) {
                    Ok(()) => {}
                    Err(e) => {
                        proof {
                            assert(false);
                        }
                        return Err(e);
                    }
                }
                proof {
                    Bridge::lemma_same_collateral_views(s1, *self);
                    Bridge::lemma_same_treasury_views(*old(self), s1);
                    Bridge::lemma_same_treasury_views(s2, *self);
                    Bridge::lemma_same_vault_views(s1, s2);
                }
            }
        }
        let ghost sp = *self;
        self.put_redeem(RedeemRequest { cancelled: true, reimburse, ..req });
        proof {
            Bridge::lemma_same_collateral_views(sp, *self);
            Bridge::lemma_same_treasury_views(sp, *self);
            Bridge::lemma_same_vault_views(sp, *self);
            Bridge::lemma_same_redeem_views(*old(self), sp);
        }
        Ok(CancelRedeemEvent {
            redeem_id,
            redeemer: req.redeemer,
            reimburse,
            punishment: punishment_ev,
            reimbursement: reimbursement_ev,
        })
    }

    /// Conditions under which `liquidation_redeem` succeeds.
    pub open spec fn spec_can_liquidation_redeem(self, redeemer: AccountId, amount: Amount)
        -> bool {
        let lv = self.liquidation_vault;
        &&& self.running
        &&& self.tokens_free(redeemer) >= amount
        &&& lv.redeemable() >= amount
        &&& lv.issued_tokens + lv.to_be_issued_tokens <= u128::MAX
        &&& (lv.issued_tokens + lv.to_be_issued_tokens > 0
            ==> self.liquidation_collateral * amount <= u128::MAX)
        &&& self.dot_free(redeemer)
            + spec_liquidation_payout(lv, self.liquidation_collateral, amount) <= u128::MAX
    }

    /// The error kind `liquidation_redeem` reports for a failing input, in
    /// the order its checks run.
    pub open spec fn spec_liquidation_redeem_err(self, redeemer: AccountId, amount: Amount)
        -> Error {
        let lv = self.liquidation_vault;
        if !self.running {
            Error::ParachainNotRunning
        } else if self.tokens_free(redeemer) < amount {
            Error::InsufficientFunds
        } else if lv.issued_tokens + lv.to_be_issued_tokens > u128::MAX {
            Error::ArithmeticOverflow
        } else if lv.redeemable() < amount {
            Error::InsufficientTokensCommitted
        } else {
            // the remaining failing cases are the scaled product and the
            // redeemer's balance ceiling
            Error::ArithmeticOverflow
        }
    }

    /// Burns `amount_polka_btc` of the redeemer's wBTC directly against the
    /// liquidation vault and credits the redeemer with the pro-rata share
    /// of its collateral.
    pub fn liquidation_redeem(&mut self, redeemer: AccountId, amount_polka_btc: Amount) -> (r:
        Result<LiquidationRedeemEvent, Error>)
        requires
            old(self).inv(),
        ensures
            final(self).inv(),
            r is Ok <==> old(self).spec_can_liquidation_redeem(redeemer, amount_polka_btc),
            r matches Err(e) ==> *final(self) == *old(self) && e == old(
                self,
            ).spec_liquidation_redeem_err(redeemer, amount_polka_btc),
            r matches Ok(ev) ==> {
                let lv = old(self).liquidation_vault;
                let payout = spec_liquidation_payout(
                    lv,
                    old(self).liquidation_collateral,
                    amount_polka_btc,
                );
                let from_issued: int = if amount_polka_btc <= lv.issued_tokens {
                    amount_polka_btc as int
                } else {
                    lv.issued_tokens as int
                };
                &&& ev == (LiquidationRedeemEvent {
                    redeemer,
                    amount_wbtc: amount_polka_btc,
                    transferred_dot: payout as u128,
                })
                &&& *final(self) == (Bridge {
                    liquidation_vault: final(self).liquidation_vault,
                    liquidation_collateral: final(self).liquidation_collateral,
                    collateral: final(self).collateral,
                    treasury: final(self).treasury,
                    ..*old(self)
                })
                &&& final(self).liquidation_vault == (SystemVault {
                    issued_tokens: (lv.issued_tokens - from_issued) as u128,
                    to_be_issued_tokens: (lv.to_be_issued_tokens
                        - (amount_polka_btc - from_issued)) as u128,
                    ..lv
                })
                &&& final(self).liquidation_collateral == old(self).liquidation_collateral
                    - payout
                &&& final(self).dot_free(redeemer) == old(self).dot_free(redeemer) + payout
                &&& forall|a: AccountId| a != redeemer
                    ==> final(self).dot_free(a) == old(self).dot_free(a)
                &&& forall|a: AccountId| final(self).dot_locked(a) == old(self).dot_locked(a)
                &&& final(self).tokens_free(redeemer) == old(self).tokens_free(redeemer)
                    - amount_polka_btc
                &&& forall|a: AccountId| a != redeemer
                    ==> final(self).tokens_free(a) == old(self).tokens_free(a)
                &&& forall|a: AccountId| final(self).tokens_locked(a)
                    == old(self).tokens_locked(a)
                &&& final(self).total_supply() == old(self).total_supply() - amount_polka_btc
                &&& final(self).total_issued() == old(self).total_issued() - from_issued
                &&& (old(self).supply_matches_issued()
                    && amount_polka_btc <= lv.issued_tokens
                    ==> final(self).supply_matches_issued())
            },
    {
        self.ensure_parachain_status_running()?;
        let tf = self.treasury.get_free(redeemer);
        if tf < amount_polka_btc {
            return Err(Error::InsufficientFunds);
        }
        let lv = self.liquidation_vault;
        let denom = match lv.issued_tokens.checked_add(lv.to_be_issued_tokens) {
            Some(x) => x,
            None => {
                return Err(Error::ArithmeticOverflow);
            }
        };
        if denom - lv.to_be_redeemed_tokens < amount_polka_btc {
            return Err(Error::InsufficientTokensCommitted);
        }
        let payout: u128 = if denom == 0 {
            0
        } else {
            let p = match self.liquidation_collateral.checked_mul(amount_polka_btc) {
                Some(x) => x,
                None => {
                    return Err(Error::ArithmeticOverflow);
                }
            };
            p / denom
        };
        proof {
            if denom != 0 {
                crate::vault_registry::lemma_slash_le_backing(
                    self.liquidation_collateral as int,
                    amount_polka_btc as int,
                    denom as int,
                );
            }
        }
        let uf = self.collateral.get_free(redeemer);
        if uf.checked_add(payout).is_none() {
            return Err(Error::ArithmeticOverflow);
        }
        let from_issued: u128 = if amount_polka_btc <= lv.issued_tokens {
            amount_polka_btc
        } else {
            lv.issued_tokens
        };
        // commit phase
        match self.burn_free_tokens(redeemer, amount_polka_btc) {
            Ok(()) => {}
            Err(e) => {
                proof {
                    assert(false);
                }
                return Err(e);
            }
        }
        let ghost s1 = *self;
        match self.slash_collateral(
            CurrencySource::LiquidationVault,
            CurrencySource::FreeBalance(redeemer),
            payout,
        ) {
            Ok(()) => {}
            Err(e) => {
                proof {
                    assert(false);
                }
                return Err(e);
            }
        }
        self.liquidation_vault = SystemVault {
            issued_tokens: lv.issued_tokens - from_issued,
            to_be_issued_tokens: lv.to_be_issued_tokens - (amount_polka_btc - from_issued),
            ..lv
        };
        proof {
            Bridge::lemma_same_treasury_views(s1, *self);
            Bridge::lemma_same_collateral_views(*old(self), s1);
            Bridge::lemma_same_vault_views(*old(self), *self);
        }
        Ok(LiquidationRedeemEvent {
            redeemer,
            amount_wbtc: amount_polka_btc,
            transferred_dot: payout,
        })
    }
}

} // verus!
