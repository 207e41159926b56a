//! The replace protocol: an old vault asks to hand its position over,
//! posting griefing collateral; a new vault accepts (or, when the old vault
//! is badly collateralized, forces an auction), locking collateral of its
//! own; the old vault pays the BTC across and executes, moving the tokens;
//! an expired accepted request is cancelled by the new vault, which keeps
//! the old vault's griefing collateral. A pending request can be withdrawn
//! by the old vault.

use vstd::prelude::*;
use crate::bridge::Bridge;
use crate::errors::Error;
use crate::fixed_point::FIXED_POINT_HALF;
use crate::table::{index_of_key, Keyed};
use crate::types::{
    AcceptReplaceEvent, AccountId, Amount, AuctionReplaceEvent, BtcAddress, BtcPayment,
    CancelReplaceEvent, CurrencySource, ExecuteReplaceEvent, ReplaceRequest, RequestId,
    RequestReplaceEvent, Vault, WithdrawReplaceEvent,
};

verus! {

impl Bridge {
    /// The deadline base of a replace request: its accept time once
    /// accepted, its open time before.
    pub open spec fn spec_replace_start(req: ReplaceRequest) -> int {
        match req.accept_time {
            Some(t) => t as int,
            None => req.open_time as int,
        }
    }

    /// The amount a replace request settles on: the requested amount
    /// clamped to the vault's redeemable stock.
    pub open spec fn spec_replace_clamped(self, vault_id: AccountId, amount: Amount) -> int {
        let v = self.vault_of(vault_id);
        if amount <= v.redeemable() {
            amount as int
        } else {
            v.redeemable()
        }
    }

    /// Conditions under which `request_replace` succeeds.
    pub open spec fn spec_can_request_replace(
        self,
        old_vault_id: AccountId,
        amount: Amount,
        griefing_collateral: Amount,
    ) -> bool {
        let v = self.vault_of(old_vault_id);
        let clamped = self.spec_replace_clamped(old_vault_id, amount);
        let value = self.spec_value_of(clamped);
        let expected = self.params.replace_griefing_collateral.spec_mul_round_i(value);
        &&& self.running
        &&& self.has_vault(old_vault_id)
        &&& v.status is Active
        &&& !v.is_banned_at(self.current_height)
        &&& clamped >= self.params.replace_btc_dust_value
        &&& self.exchange_rate.inner * clamped <= u128::MAX
        &&& self.params.replace_griefing_collateral.inner * value + FIXED_POINT_HALF
            <= u128::MAX
        &&& griefing_collateral >= expected
        &&& v.to_be_replaced_tokens + clamped <= v.redeemable()
        &&& self.dot_free(old_vault_id) >= griefing_collateral
        &&& self.dot_locked(old_vault_id) + griefing_collateral <= u128::MAX
        &&& self.nonce < u64::MAX
    }

    /// The error kind `request_replace` reports for a failing input, in the
    /// order its checks run.
    pub open spec fn spec_request_replace_err(
        self,
        old_vault_id: AccountId,
        amount: Amount,
        griefing_collateral: Amount,
    ) -> Error {
        let v = self.vault_of(old_vault_id);
        let clamped = self.spec_replace_clamped(old_vault_id, amount);
        let value = self.spec_value_of(clamped);
        let expected = self.params.replace_griefing_collateral.spec_mul_round_i(value);
        if !self.running {
            Error::ParachainNotRunning
        } else if !self.has_vault(old_vault_id) || !(v.status is Active) {
            Error::VaultNotFound
        } else if v.is_banned_at(self.current_height) {
            Error::VaultBanned
        } else if clamped < self.params.replace_btc_dust_value {
            Error::AmountBelowDustAmount
        } else if self.exchange_rate.inner * clamped > u128::MAX {
            Error::ArithmeticOverflow
        } else if self.params.replace_griefing_collateral.inner * value + FIXED_POINT_HALF
            > u128::MAX {
            Error::ArithmeticOverflow
        } else if griefing_collateral < expected {
            Error::InsufficientCollateral
        } else if v.to_be_replaced_tokens + clamped > v.redeemable() {
            Error::InsufficientTokensCommitted
        } else if self.dot_free(old_vault_id) < griefing_collateral {
            Error::InsufficientFunds
        } else if self.dot_locked(old_vault_id) + griefing_collateral > u128::MAX {
            Error::ArithmeticOverflow
        } else {
            // the remaining failing case: the request ids are exhausted
            Error::ArithmeticOverflow
        }
    }

    /// Opens a replace request: the amount is clamped to the vault's
    /// redeemable stock, griefing collateral is locked from the old
    /// vault's free balance, and the vault's to-be-replaced counter grows.
    pub fn request_replace(
        &mut self,
        old_vault_id: AccountId,
        amount: Amount,
        griefing_collateral: Amount,
    ) -> (r: Result<RequestReplaceEvent, Error>)
        requires
            old(self).inv(),
        ensures
            final(self).inv(),
            r is Ok <==> old(self).spec_can_request_replace(
                old_vault_id,
                amount,
                griefing_collateral,
            ),
            r matches Err(e) ==> *final(self) == *old(self) && e == old(
                self,
            ).spec_request_replace_err(old_vault_id, amount, griefing_collateral),
            r matches Ok(ev) ==> {
                let v = old(self).vault_of(old_vault_id);
                let clamped = (old(self).spec_replace_clamped(old_vault_id, amount)) as u128;
                let replace_id = old(self).nonce;
                &&& ev == (RequestReplaceEvent {
                    replace_id,
                    old_vault: old_vault_id,
                    amount_btc: clamped,
                    griefing_collateral,
                })
                &&& *final(self) == (Bridge {
                    vaults: final(self).vaults,
                    collateral: final(self).collateral,
                    replace_requests: final(self).replace_requests,
                    nonce: (old(self).nonce + 1) as u64,
                    ..*old(self)
                })
                &&& !old(self).has_replace(replace_id)
                &&& final(self).has_replace(replace_id)
                &&& final(self).replace_of(replace_id) == (ReplaceRequest {
                    id: replace_id,
                    old_vault: old_vault_id,
                    new_vault: None,
                    open_time: old(self).current_height,
                    accept_time: None,
                    amount: clamped,
                    griefing_collateral,
                    collateral: 0,
                    btc_address: None,
                    completed: false,
                    cancelled: false,
                })
                &&& forall|x: RequestId| x != replace_id
                    ==> (final(self).has_replace(x) <==> old(self).has_replace(x))
                &&& forall|x: RequestId| x != replace_id && old(self).has_replace(x)
                    ==> final(self).replace_of(x) == old(self).replace_of(x)
                &&& final(self).vault_of(old_vault_id) == (Vault {
                    to_be_replaced_tokens: (v.to_be_replaced_tokens + clamped) as u128,
                    ..v
                })
                &&& forall|x: AccountId| (final(self).has_vault(x) <==> old(self).has_vault(x))
                &&& forall|x: AccountId| x != old_vault_id && old(self).has_vault(x)
                    ==> final(self).vault_of(x) == old(self).vault_of(x)
                &&& final(self).dot_free(old_vault_id) == old(self).dot_free(old_vault_id)
                    - griefing_collateral
                &&& final(self).dot_locked(old_vault_id) == old(self).dot_locked(old_vault_id)
                    + griefing_collateral
                &&& forall|a: AccountId| a != old_vault_id
                    ==> final(self).dot_free(a) == old(self).dot_free(a)
                        && final(self).dot_locked(a) == old(self).dot_locked(a)
                &&& final(self).total_issued() == old(self).total_issued()
                &&& final(self).total_supply() == old(self).total_supply()
            },
    {
        self.ensure_parachain_status_running()?;
        let v = self.get_active_vault_from_id(old_vault_id)?;
        self.ensure_not_banned(old_vault_id)?;
        proof {
            self.lemma_vault_counters_ok(old_vault_id);
        }
        let redeemable = v.issued_tokens - v.to_be_redeemed_tokens;
        let clamped = if amount <= redeemable {
            amount
        } else {
            redeemable
        };
        if clamped < self.params.replace_btc_dust_value {
            return Err(Error::AmountBelowDustAmount);
        }
        let amount_dot = self.btc_to_dots(clamped)?;
        let expected = self.get_replace_griefing_collateral(amount_dot)?;
        if griefing_collateral < expected {
            return Err(Error::InsufficientCollateral);
        }
        let df = self.collateral.get_free(old_vault_id);
        let dl = self.collateral.get_locked(old_vault_id);
        match v.to_be_replaced_tokens.checked_add(clamped) {
            Some(n) => {
                if n > redeemable {
                    return Err(Error::InsufficientTokensCommitted);
                }
            }
            None => {
                return Err(Error::InsufficientTokensCommitted);
            }
        }
        if df < griefing_collateral {
            return Err(Error::InsufficientFunds);
        }
        if dl.checked_add(griefing_collateral).is_none() {
            return Err(Error::ArithmeticOverflow);
        }
        if self.nonce == u64::MAX {
            return Err(Error::ArithmeticOverflow);
        }
        // commit phase
        match self.try_increase_to_be_replaced_tokens(old_vault_id, clamped) {
            Ok(()) => {}
            Err(e) => {
                proof {
                    assert(false);
                }
                return Err(e);
            }
        }
        let ghost s1 = *self;
        let replace_id = match self.get_secure_id() {
            Ok(id) => id,
            Err(e) => {
                proof {
                    assert(false);
                }
                return Err(e);
            }
        };
        let ghost s2 = *self;
        match self.lock_collateral(old_vault_id, griefing_collateral) {
            Ok(()) => {}
            Err(e) => {
                proof {
                    assert(false);
                }
                return Err(e);
            }
        }
        let ghost s3 = *self;
        proof {
            if self.has_replace(replace_id) {
                let i = index_of_key(self.replace_requests@, replace_id);
                assert(0 <= i < self.replace_requests@.len()
                    && self.replace_requests@[i].key() == replace_id);
                assert(old(self).replace_requests@[i].id < old(self).nonce);
            }
        }
        self.push_replace(ReplaceRequest {
            id: replace_id,
            old_vault: old_vault_id,
            new_vault: None,
            open_time: self.current_height,
            accept_time: None,
            amount: clamped,
            griefing_collateral,
            collateral: 0,
            btc_address: None,
            completed: false,
            cancelled: false,
        });
        proof {
            Bridge::lemma_same_vault_views(s1, *self);
            Bridge::lemma_same_collateral_views(*old(self), s2);
            Bridge::lemma_same_collateral_views(s3, *self);
            Bridge::lemma_same_replace_views(*old(self), s3);
            Bridge::lemma_same_treasury_views(*old(self), *self);
        }
        Ok(RequestReplaceEvent {
            replace_id,
            old_vault: old_vault_id,
            amount_btc: clamped,
            griefing_collateral,
        })
    }

    /// Conditions under which `withdraw_replace_request` succeeds.
    pub open spec fn spec_can_withdraw_replace(self, vault_id: AccountId, replace_id: RequestId)
        -> bool {
        let req = self.replace_of(replace_id);
        let v = self.vault_of(req.old_vault);
        &&& self.has_replace(replace_id)
        &&& req.is_open()
        &&& self.has_vault(req.old_vault)
        &&& v.status is Active
        &&& vault_id == req.old_vault
        &&& !req.is_accepted()
        &&& self.dot_locked(req.old_vault) >= req.griefing_collateral
        &&& self.dot_free(req.old_vault) + req.griefing_collateral <= u128::MAX
        &&& v.to_be_replaced_tokens >= req.amount
    }

    /// The error kind `withdraw_replace_request` reports for a failing
    /// input, in the order its checks run.
    pub open spec fn spec_withdraw_replace_err(self, vault_id: AccountId, replace_id: RequestId)
        -> Error {
        let req = self.replace_of(replace_id);
        let v = self.vault_of(req.old_vault);
        if !self.has_replace(replace_id) {
            Error::ReplaceIdNotFound
        } else if req.completed {
            Error::ReplaceCompleted
        } else if req.cancelled {
            Error::ReplaceCancelled
        } else if !self.has_vault(req.old_vault) || !(v.status is Active) {
            Error::VaultNotFound
        } else if vault_id != req.old_vault {
            Error::UnauthorizedVault
        } else if req.is_accepted() {
            Error::CancelAcceptedRequest
        } else if self.dot_locked(req.old_vault) < req.griefing_collateral {
            Error::InsufficientFunds
        } else if self.dot_free(req.old_vault) + req.griefing_collateral > u128::MAX {
            Error::ArithmeticOverflow
        } else {
            // the remaining failing case: the to-be-replaced commitment is
            // short of the amount
            Error::ArithmeticUnderflow
        }
    }

    /// The old vault withdraws its own still-pending replace request; its
    /// griefing collateral is released and the to-be-replaced commitment
    /// reversed.
    pub fn withdraw_replace_request(&mut self, vault_id: AccountId, replace_id: RequestId) -> (r:
        Result<WithdrawReplaceEvent, Error>)
        requires
            old(self).inv(),
        ensures
            final(self).inv(),
            r is Ok <==> old(self).spec_can_withdraw_replace(vault_id, replace_id),
            r matches Err(e) ==> *final(self) == *old(self) && e == old(
                self,
            ).spec_withdraw_replace_err(vault_id, replace_id),
            r matches Ok(ev) ==> {
                let req = old(self).replace_of(replace_id);
                let v = old(self).vault_of(req.old_vault);
                let g = req.griefing_collateral;
                &&& ev == (WithdrawReplaceEvent { replace_id, old_vault: req.old_vault })
                &&& *final(self) == (Bridge {
                    vaults: final(self).vaults,
                    collateral: final(self).collateral,
                    replace_requests: final(self).replace_requests,
                    ..*old(self)
                })
                &&& final(self).replace_of(replace_id) == (ReplaceRequest {
                    cancelled: true,
                    ..req
                })
                &&& forall|x: RequestId| x != replace_id
                    ==> (final(self).has_replace(x) <==> old(self).has_replace(x))
                &&& forall|x: RequestId| x != replace_id && old(self).has_replace(x)
                    ==> final(self).replace_of(x) == old(self).replace_of(x)
                &&& final(self).vault_of(req.old_vault) == (Vault {
                    to_be_replaced_tokens: (v.to_be_replaced_tokens - req.amount) as u128,
                    ..v
                })
                &&& forall|x: AccountId| (final(self).has_vault(x) <==> old(self).has_vault(x))
                &&& forall|x: AccountId| x != req.old_vault && old(self).has_vault(x)
                    ==> final(self).vault_of(x) == old(self).vault_of(x)
                &&& final(self).dot_free(req.old_vault) == old(self).dot_free(req.old_vault) + g
                &&& final(self).dot_locked(req.old_vault)
                    == old(self).dot_locked(req.old_vault) - g
                &&& forall|a: AccountId| a != req.old_vault
                    ==> final(self).dot_free(a) == old(self).dot_free(a)
                        && final(self).dot_locked(a) == old(self).dot_locked(a)
                &&& final(self).total_issued() == old(self).total_issued()
                &&& final(self).total_supply() == old(self).total_supply()
            },
    {
        let req = self.get_open_replace_request(replace_id)?;
        let v = self.get_active_vault_from_id(req.old_vault)?;
        if vault_id != req.old_vault {
            return Err(Error::UnauthorizedVault);
        }
        if matches!(req.new_vault, Some(_)) {
            return Err(Error::CancelAcceptedRequest);
        }
        let g = req.griefing_collateral;
        let dl = self.collateral.get_locked(req.old_vault);
        if dl < g {
            return Err(Error::InsufficientFunds);
        }
        let df = self.collateral.get_free(req.old_vault);
        if df.checked_add(g).is_none() {
            return Err(Error::ArithmeticOverflow);
        }
        if v.to_be_replaced_tokens < req.amount {
            return Err(Error::ArithmeticUnderflow);
        }
        // commit phase
        match self.release_collateral(req.old_vault, g) {
            Ok(()) => {}
            Err(e) => {
                proof {
                    assert(false);
                }
                return Err(e);
            }
        }
        let ghost s1 = *self;
        match self.decrease_to_be_replaced_tokens(req.old_vault, req.amount) {
            Ok(()) => {}
            Err(e) => {
                proof {
                    assert(false);
                }
                return Err(e);
            }
        }
        let ghost s2 = *self;
        self.put_replace(ReplaceRequest { cancelled: true, ..req });
        proof {
            Bridge::lemma_same_collateral_views(s1, *self);
            Bridge::lemma_same_vault_views(*old(self), s1);
            Bridge::lemma_same_vault_views(s2, *self);
            Bridge::lemma_same_replace_views(*old(self), s2);
            Bridge::lemma_same_treasury_views(*old(self), *self);
        }
        Ok(WithdrawReplaceEvent { replace_id, old_vault: req.old_vault })
    }

    /// Conditions under which `accept_replace` succeeds.
    pub open spec fn spec_can_accept_replace(
        self,
        new_vault_id: AccountId,
        replace_id: RequestId,
        collateral: Amount,
    ) -> bool {
        let req = self.replace_of(replace_id);
        let ov = self.vault_of(req.old_vault);
        let nv = self.vault_of(new_vault_id);
        let secure = self.params.secure_collateral_threshold;
        let new_out = nv.issued_tokens + nv.to_be_issued_tokens + req.amount
            - nv.to_be_redeemed_tokens;
        &&& self.running
        &&& self.has_replace(replace_id)
        &&& req.is_open()
        &&& self.has_vault(new_vault_id)
        &&& nv.status is Active
        &&& !nv.is_banned_at(self.current_height)
        &&& !req.is_accepted()
        &&& new_vault_id != req.old_vault
        &&& self.threshold_computable(secure, req.amount as int)
        &&& !self.spec_below_threshold(collateral as int, req.amount as int, secure)
        &&& self.has_vault(req.old_vault)
        &&& self.dot_free(new_vault_id) >= collateral
        &&& nv.backing_collateral + collateral <= u128::MAX
        &&& ov.to_be_replaced_tokens >= req.amount
        &&& ov.redeemable() >= req.amount
        &&& nv.to_be_issued_tokens + req.amount <= u128::MAX
        &&& nv.issued_tokens + nv.to_be_issued_tokens + req.amount <= u128::MAX
        &&& self.threshold_computable(secure, new_out)
        &&& !self.spec_below_threshold(
            (nv.backing_collateral + collateral) as int,
            new_out,
            secure,
        )
    }

    /// The error kind `accept_replace` reports for a failing input, in the
    /// order its checks run.
    pub open spec fn spec_accept_replace_err(
        self,
        new_vault_id: AccountId,
        replace_id: RequestId,
        collateral: Amount,
    ) -> Error {
        let req = self.replace_of(replace_id);
        let nv = self.vault_of(new_vault_id);
        let ov = self.vault_of(req.old_vault);
        let secure = self.params.secure_collateral_threshold;
        let new_out = nv.issued_tokens + nv.to_be_issued_tokens + req.amount
            - nv.to_be_redeemed_tokens;
        if !self.running {
            Error::ParachainNotRunning
        } else if !self.has_replace(replace_id) {
            Error::ReplaceIdNotFound
        } else if req.completed {
            Error::ReplaceCompleted
        } else if req.cancelled {
            Error::ReplaceCancelled
        } else if !self.has_vault(new_vault_id) || !(nv.status is Active) {
            Error::VaultNotFound
        } else if nv.is_banned_at(self.current_height) {
            Error::VaultBanned
        } else if req.is_accepted() {
            Error::CancelAcceptedRequest
        } else if new_vault_id == req.old_vault {
            Error::UnauthorizedVault
        } else if !self.threshold_computable(secure, req.amount as int) {
            Error::ArithmeticOverflow
        } else if self.spec_below_threshold(collateral as int, req.amount as int, secure) {
            Error::InsufficientCollateral
        } else if !self.has_vault(req.old_vault) {
            Error::VaultNotFound
        } else if self.dot_free(new_vault_id) < collateral {
            Error::InsufficientFunds
        } else if nv.backing_collateral + collateral > u128::MAX {
            Error::ArithmeticOverflow
        } else if ov.to_be_replaced_tokens < req.amount {
            Error::ArithmeticUnderflow
        } else if ov.redeemable() < req.amount {
            Error::InsufficientTokensCommitted
        } else if nv.to_be_issued_tokens + req.amount > u128::MAX
            || nv.issued_tokens + nv.to_be_issued_tokens + req.amount > u128::MAX
            || !self.threshold_computable(secure, new_out) {
            Error::ArithmeticOverflow
        } else {
            // the remaining failing case: the new vault's enlarged position
            // falls below the secure threshold
            Error::ExceedingVaultLimit
        }
    }

    /// A new vault accepts a pending replace request: it locks collateral
    /// sufficient at the secure threshold, the old vault's to-be-replaced
    /// commitment becomes a to-be-redeemed one, and the new vault commits
    /// to issuing the amount.
    pub fn accept_replace(
        &mut self,
        new_vault_id: AccountId,
        replace_id: RequestId,
        collateral: Amount,
        btc_address: BtcAddress,
    ) -> (r: Result<AcceptReplaceEvent, Error>)
        requires
            old(self).inv(),
        ensures
            final(self).inv(),
            r is Ok <==> old(self).spec_can_accept_replace(new_vault_id, replace_id, collateral),
            r matches Err(e) ==> *final(self) == *old(self) && e == old(
                self,
            ).spec_accept_replace_err(new_vault_id, replace_id, collateral),
            r matches Ok(ev) ==> {
                let req = old(self).replace_of(replace_id);
                let ov = old(self).vault_of(req.old_vault);
                let nv = old(self).vault_of(new_vault_id);
                let amount = req.amount;
                &&& ev == (AcceptReplaceEvent {
                    replace_id,
                    old_vault: req.old_vault,
                    new_vault: new_vault_id,
                    amount_btc: amount,
                    collateral,
                    btc_address,
                })
                &&& *final(self) == (Bridge {
                    vaults: final(self).vaults,
                    collateral: final(self).collateral,
                    replace_requests: final(self).replace_requests,
                    ..*old(self)
                })
                &&& final(self).replace_of(replace_id) == (ReplaceRequest {
                    new_vault: Some(new_vault_id),
                    accept_time: Some(old(self).current_height),
                    collateral,
                    btc_address: Some(btc_address),
                    ..req
                })
                &&& forall|x: RequestId| x != replace_id
                    ==> (final(self).has_replace(x) <==> old(self).has_replace(x))
                &&& forall|x: RequestId| x != replace_id && old(self).has_replace(x)
                    ==> final(self).replace_of(x) == old(self).replace_of(x)
                &&& final(self).vault_of(req.old_vault) == (Vault {
                    to_be_replaced_tokens: (ov.to_be_replaced_tokens - amount) as u128,
                    to_be_redeemed_tokens: (ov.to_be_redeemed_tokens + amount) as u128,
                    ..ov
                })
                &&& final(self).vault_of(new_vault_id) == (Vault {
                    backing_collateral: (nv.backing_collateral + collateral) as u128,
                    to_be_issued_tokens: (nv.to_be_issued_tokens + amount) as u128,
                    ..nv
                })
                &&& forall|x: AccountId| (final(self).has_vault(x) <==> old(self).has_vault(x))
                &&& forall|x: AccountId| x != req.old_vault && x != new_vault_id
                    && old(self).has_vault(x)
                    ==> final(self).vault_of(x) == old(self).vault_of(x)
                &&& final(self).dot_free(new_vault_id) == old(self).dot_free(new_vault_id)
                    - collateral
                &&& forall|a: AccountId| a != new_vault_id
                    ==> final(self).dot_free(a) == old(self).dot_free(a)
                &&& forall|a: AccountId| final(self).dot_locked(a) == old(self).dot_locked(a)
                &&& final(self).total_issued() == old(self).total_issued()
                &&& final(self).total_supply() == old(self).total_supply()
            },
    {
        self.ensure_parachain_status_running()?;
        let req = self.get_open_replace_request(replace_id)?;
        let nv = self.get_active_vault_from_id(new_vault_id)?;
        self.ensure_not_banned(new_vault_id)?;
        if matches!(req.new_vault, Some(_)) {
            return Err(Error::CancelAcceptedRequest);
        }
        if new_vault_id == req.old_vault {
            return Err(Error::UnauthorizedVault);
        }
        let below = self.is_collateral_below_secure_threshold(collateral, req.amount)?;
        if below {
            return Err(Error::InsufficientCollateral);
        }
        let ov = self.get_vault_from_id(req.old_vault)?;
        let amount = req.amount;
        let df = self.collateral.get_free(new_vault_id);
        if df < collateral {
            return Err(Error::InsufficientFunds);
        }
        let nb = match nv.backing_collateral.checked_add(collateral) {
            Some(x) => x,
            None => {
                return Err(Error::ArithmeticOverflow);
            }
        };
        if ov.to_be_replaced_tokens < amount {
            return Err(Error::ArithmeticUnderflow);
        }
        proof {
            self.lemma_vault_counters_ok(req.old_vault);
            self.lemma_vault_counters_ok(new_vault_id);
        }
        if ov.issued_tokens - ov.to_be_redeemed_tokens < amount {
            return Err(Error::InsufficientTokensCommitted);
        }
        let new_tbi = match nv.to_be_issued_tokens.checked_add(amount) {
            Some(x) => x,
            None => {
                return Err(Error::ArithmeticOverflow);
            }
        };
        let s = match nv.issued_tokens.checked_add(new_tbi) {
            Some(x) => x,
            None => {
                return Err(Error::ArithmeticOverflow);
            }
        };
        let new_out = s - nv.to_be_redeemed_tokens;
        let below_after = self.is_collateral_below_threshold(
            nb,
            new_out,
            self.params.secure_collateral_threshold,
        )?;
        if below_after {
            return Err(Error::ExceedingVaultLimit);
        }
        // commit phase
        match self.try_lock_additional_collateral(new_vault_id, collateral) {
            Ok(()) => {}
            Err(e) => {
                proof {
                    assert(false);
                }
                return Err(e);
            }
        }
        let ghost s1 = *self;
        match self.decrease_to_be_replaced_tokens(req.old_vault, amount) {
            Ok(()) => {}
            Err(e) => {
                proof {
                    assert(false);
                }
                return Err(e);
            }
        }
        let ghost s2 = *self;
        match self.try_increase_to_be_redeemed_tokens(req.old_vault, amount) {
            Ok(()) => {}
            Err(e) => {
                proof {
                    assert(false);
                }
                return Err(e);
            }
        }
        let ghost s3 = *self;
        match self.try_increase_to_be_issued_tokens(new_vault_id, amount) {
            Ok(()) => {}
            Err(e) => {
                proof {
                    assert(false);
                }
                return Err(e);
            }
        }
        let ghost s4 = *self;
        self.put_replace(ReplaceRequest {
            new_vault: Some(new_vault_id),
            accept_time: Some(self.current_height),
            collateral,
            btc_address: Some(btc_address),
            ..req
        });
        proof {
            Bridge::lemma_same_collateral_views(s1, *self);
            Bridge::lemma_same_vault_views(s4, *self);
            Bridge::lemma_same_replace_views(*old(self), s4);
            Bridge::lemma_same_treasury_views(*old(self), *self);
        }
        Ok(AcceptReplaceEvent {
            replace_id,
            old_vault: req.old_vault,
            new_vault: new_vault_id,
            amount_btc: amount,
            collateral,
            btc_address,
        })
    }

    /// Conditions under which `auction_replace` succeeds.
    pub open spec fn spec_can_auction_replace(
        self,
        old_vault_id: AccountId,
        new_vault_id: AccountId,
        btc_amount: Amount,
        collateral: Amount,
    ) -> bool {
        let ov = self.vault_of(old_vault_id);
        let nv = self.vault_of(new_vault_id);
        let secure = self.params.secure_collateral_threshold;
        let value = self.spec_value_of(btc_amount as int);
        let reward = self.params.auction_redeem_fee.spec_mul_round_i(value);
        let griefing = self.params.replace_griefing_collateral.spec_mul_round_i(value);
        let new_out = nv.issued_tokens + nv.to_be_issued_tokens + btc_amount
            - nv.to_be_redeemed_tokens;
        &&& self.running
        &&& self.has_vault(new_vault_id)
        &&& nv.status is Active
        &&& self.has_vault(old_vault_id)
        &&& ov.status is Active
        &&& old_vault_id != new_vault_id
        &&& ov.issued_tokens + ov.to_be_issued_tokens <= u128::MAX
        &&& self.threshold_computable(
            self.params.auction_collateral_threshold,
            ov.outstanding(),
        )
        &&& self.spec_below_threshold(
            ov.backing_collateral as int,
            ov.outstanding(),
            self.params.auction_collateral_threshold,
        )
        &&& self.threshold_computable(secure, btc_amount as int)
        &&& !self.spec_below_threshold(collateral as int, btc_amount as int, secure)
        &&& self.exchange_rate.inner * btc_amount <= u128::MAX
        &&& self.params.auction_redeem_fee.inner * value + FIXED_POINT_HALF <= u128::MAX
        &&& self.params.replace_griefing_collateral.inner * value + FIXED_POINT_HALF
            <= u128::MAX
        &&& ov.backing_collateral >= reward
        &&& self.dot_free(new_vault_id) + reward <= u128::MAX
        &&& self.dot_free(old_vault_id) >= griefing
        &&& self.dot_locked(old_vault_id) + griefing <= u128::MAX
        &&& self.dot_free(new_vault_id) + reward >= collateral
        &&& nv.backing_collateral + collateral <= u128::MAX
        &&& ov.redeemable() >= btc_amount
        &&& nv.to_be_issued_tokens + btc_amount <= u128::MAX
        &&& nv.issued_tokens + nv.to_be_issued_tokens + btc_amount <= u128::MAX
        &&& self.threshold_computable(secure, new_out)
        &&& !self.spec_below_threshold(
            (nv.backing_collateral + collateral) as int,
            new_out,
            secure,
        )
        &&& self.nonce < u64::MAX
    }

    /// The error kind `auction_replace` reports for a failing input, in the
    /// order its checks run.
    pub open spec fn spec_auction_replace_err(
        self,
        old_vault_id: AccountId,
        new_vault_id: AccountId,
        btc_amount: Amount,
        collateral: Amount,
    ) -> Error {
        let ov = self.vault_of(old_vault_id);
        let nv = self.vault_of(new_vault_id);
        let secure = self.params.secure_collateral_threshold;
        let value = self.spec_value_of(btc_amount as int);
        let reward = self.params.auction_redeem_fee.spec_mul_round_i(value);
        let griefing = self.params.replace_griefing_collateral.spec_mul_round_i(value);
        let new_out = nv.issued_tokens + nv.to_be_issued_tokens + btc_amount
            - nv.to_be_redeemed_tokens;
        if !self.running {
            Error::ParachainNotRunning
        } else if !self.has_vault(new_vault_id) || !(nv.status is Active) {
            Error::VaultNotFound
        } else if !self.has_vault(old_vault_id) || !(ov.status is Active) {
            Error::VaultNotFound
        } else if old_vault_id == new_vault_id {
            Error::UnauthorizedVault
        } else if ov.issued_tokens + ov.to_be_issued_tokens > u128::MAX
            || !self.threshold_computable(
                self.params.auction_collateral_threshold,
                ov.outstanding(),
            ) {
            Error::ArithmeticOverflow
        } else if !self.spec_below_threshold(
            ov.backing_collateral as int,
            ov.outstanding(),
            self.params.auction_collateral_threshold,
        ) {
            Error::VaultOverAuctionThreshold
        } else if !self.threshold_computable(secure, btc_amount as int) {
            Error::ArithmeticOverflow
        } else if self.spec_below_threshold(collateral as int, btc_amount as int, secure) {
            Error::InsufficientCollateral
        } else if self.params.auction_redeem_fee.inner * value + FIXED_POINT_HALF > u128::MAX {
            Error::ArithmeticOverflow
        } else if self.params.replace_griefing_collateral.inner * value + FIXED_POINT_HALF
            > u128::MAX {
            Error::ArithmeticOverflow
        } else if ov.backing_collateral < reward {
            Error::InsufficientFunds
        } else if self.dot_free(new_vault_id) + reward > u128::MAX {
            Error::ArithmeticOverflow
        } else if self.dot_free(old_vault_id) < griefing {
            Error::InsufficientFunds
        } else if self.dot_locked(old_vault_id) + griefing > u128::MAX {
            Error::ArithmeticOverflow
        } else if self.dot_free(new_vault_id) + reward < collateral {
            Error::InsufficientFunds
        } else if nv.backing_collateral + collateral > u128::MAX {
            Error::ArithmeticOverflow
        } else if ov.redeemable() < btc_amount {
            Error::InsufficientTokensCommitted
        } else if nv.to_be_issued_tokens + btc_amount > u128::MAX
            || nv.issued_tokens + nv.to_be_issued_tokens + btc_amount > u128::MAX
            || !self.threshold_computable(secure, new_out) {
            Error::ArithmeticOverflow
        } else if self.spec_below_threshold(
            (nv.backing_collateral + collateral) as int,
            new_out,
            secure,
        ) {
            Error::ExceedingVaultLimit
        } else {
            // the remaining failing case: the request ids are exhausted
            Error::ArithmeticOverflow
        }
    }

    /// A one-shot combined request-and-accept against an old vault below
    /// the auction threshold: the new vault is rewarded out of the old
    /// vault's backing, locks its own collateral, and both vaults' counter
    /// commitments are made at once.
    pub fn auction_replace(
        &mut self,
        old_vault_id: AccountId,
        new_vault_id: AccountId,
        btc_amount: Amount,
        collateral: Amount,
        btc_address: BtcAddress,
    ) -> (r: Result<AuctionReplaceEvent, Error>)
        requires
            old(self).inv(),
        ensures
            final(self).inv(),
            r is Ok <==> old(self).spec_can_auction_replace(
                old_vault_id,
                new_vault_id,
                btc_amount,
                collateral,
            ),
            r matches Err(e) ==> *final(self) == *old(self) && e == old(
                self,
            ).spec_auction_replace_err(old_vault_id, new_vault_id, btc_amount, collateral),
            r matches Ok(ev) ==> {
                let ov = old(self).vault_of(old_vault_id);
                let nv = old(self).vault_of(new_vault_id);
                let value = old(self).spec_value_of(btc_amount as int);
                let reward = (old(self).params.auction_redeem_fee.spec_mul_round_i(
                    value,
                )) as u128;
                let griefing = (old(self).params.replace_griefing_collateral.spec_mul_round_i(
                    value,
                )) as u128;
                let replace_id = old(self).nonce;
                let new_tbr = (ov.to_be_redeemed_tokens + btc_amount) as u128;
                let spare = (ov.issued_tokens - new_tbr) as u128;
                &&& ev == (AuctionReplaceEvent {
                    replace_id,
                    old_vault: old_vault_id,
                    new_vault: new_vault_id,
                    btc_amount,
                    collateral,
                    reward,
                    griefing_collateral: griefing,
                    current_height: old(self).current_height,
                    btc_address,
                })
                &&& *final(self) == (Bridge {
                    vaults: final(self).vaults,
                    collateral: final(self).collateral,
                    replace_requests: final(self).replace_requests,
                    nonce: (old(self).nonce + 1) as u64,
                    ..*old(self)
                })
                &&& !old(self).has_replace(replace_id)
                &&& final(self).has_replace(replace_id)
                &&& final(self).replace_of(replace_id) == (ReplaceRequest {
                    id: replace_id,
                    old_vault: old_vault_id,
                    new_vault: Some(new_vault_id),
                    open_time: old(self).current_height,
                    accept_time: Some(old(self).current_height),
                    amount: btc_amount,
                    griefing_collateral: griefing,
                    collateral,
                    btc_address: Some(btc_address),
                    completed: false,
                    cancelled: false,
                })
                &&& forall|x: RequestId| x != replace_id
                    ==> (final(self).has_replace(x) <==> old(self).has_replace(x))
                &&& forall|x: RequestId| x != replace_id && old(self).has_replace(x)
                    ==> final(self).replace_of(x) == old(self).replace_of(x)
                &&& final(self).vault_of(old_vault_id) == (Vault {
                    backing_collateral: (ov.backing_collateral - reward) as u128,
                    to_be_redeemed_tokens: new_tbr,
                    to_be_replaced_tokens: if ov.to_be_replaced_tokens <= spare {
                        ov.to_be_replaced_tokens
                    } else {
                        spare
                    },
                    ..ov
                })
                &&& final(self).vault_of(new_vault_id) == (Vault {
                    backing_collateral: (nv.backing_collateral + collateral) as u128,
                    to_be_issued_tokens: (nv.to_be_issued_tokens + btc_amount) as u128,
                    ..nv
                })
                &&& forall|x: AccountId| (final(self).has_vault(x) <==> old(self).has_vault(x))
                &&& forall|x: AccountId| x != old_vault_id && x != new_vault_id
                    && old(self).has_vault(x)
                    ==> final(self).vault_of(x) == old(self).vault_of(x)
                &&& final(self).dot_free(old_vault_id) == old(self).dot_free(old_vault_id)
                    - griefing
                &&& final(self).dot_locked(old_vault_id) == old(self).dot_locked(old_vault_id)
                    + griefing
                &&& final(self).dot_free(new_vault_id) == old(self).dot_free(new_vault_id)
                    + reward - collateral
                &&& forall|a: AccountId| a != old_vault_id && a != new_vault_id
                    ==> final(self).dot_free(a) == old(self).dot_free(a)
                &&& forall|a: AccountId| a != old_vault_id
                    ==> final(self).dot_locked(a) == old(self).dot_locked(a)
                &&& final(self).total_issued() == old(self).total_issued()
                &&& final(self).total_supply() == old(self).total_supply()
            },
    {
        self.ensure_parachain_status_running()?;
        let nv = self.get_active_vault_from_id(new_vault_id)?;
        let ov = self.get_active_vault_from_id(old_vault_id)?;
        if old_vault_id == new_vault_id {
            return Err(Error::UnauthorizedVault);
        }
        let below_auction = self.vault_below_threshold(
            old_vault_id,
            self.params.auction_collateral_threshold,
        )?;
        if !below_auction {
            return Err(Error::VaultOverAuctionThreshold);
        }
        let below_secure = self.is_collateral_below_secure_threshold(collateral, btc_amount)?;
        if below_secure {
            return Err(Error::InsufficientCollateral);
        }
        let value = self.btc_to_dots(btc_amount)?;
        let reward = self.get_auction_redeem_fee(value)?;
        let griefing = self.get_replace_griefing_collateral(value)?;
        if ov.backing_collateral < reward {
            return Err(Error::InsufficientFunds);
        }
        let nf = self.collateral.get_free(new_vault_id);
        let nf_after = match nf.checked_add(reward) {
            Some(x) => x,
            None => {
                return Err(Error::ArithmeticOverflow);
            }
        };
        let of = self.collateral.get_free(old_vault_id);
        if of < griefing {
            return Err(Error::InsufficientFunds);
        }
        let ol = self.collateral.get_locked(old_vault_id);
        if ol.checked_add(griefing).is_none() {
            return Err(Error::ArithmeticOverflow);
        }
        if nf_after < collateral {
            return Err(Error::InsufficientFunds);
        }
        let nb = match nv.backing_collateral.checked_add(collateral) {
            Some(x) => x,
            None => {
                return Err(Error::ArithmeticOverflow);
            }
        };
        proof {
            self.lemma_vault_counters_ok(old_vault_id);
            self.lemma_vault_counters_ok(new_vault_id);
        }
        if ov.issued_tokens - ov.to_be_redeemed_tokens < btc_amount {
            return Err(Error::InsufficientTokensCommitted);
        }
        let new_tbi = match nv.to_be_issued_tokens.checked_add(btc_amount) {
            Some(x) => x,
            None => {
                return Err(Error::ArithmeticOverflow);
            }
        };
        let s = match nv.issued_tokens.checked_add(new_tbi) {
            Some(x) => x,
            None => {
                return Err(Error::ArithmeticOverflow);
            }
        };
        let new_out = s - nv.to_be_redeemed_tokens;
        let below_after = self.is_collateral_below_threshold(
            nb,
            new_out,
            self.params.secure_collateral_threshold,
        )?;
        if below_after {
            return Err(Error::ExceedingVaultLimit);
        }
        if self.nonce == u64::MAX {
            return Err(Error::ArithmeticOverflow);
        }
        // commit phase
        match self.slash_collateral(
            CurrencySource::Backing(old_vault_id),
            CurrencySource::FreeBalance(new_vault_id),
            reward,
        ) {
            Ok(()) => {}
            Err(e) => {
                proof {
                    assert(false);
                }
                return Err(e);
            }
        }
        let ghost s1 = *self;
        match self.lock_collateral(old_vault_id, griefing) {
            Ok(()) => {}
            Err(e) => {
                proof {
                    assert(false);
                }
                return Err(e);
            }
        }
        let ghost s2 = *self;
        match self.try_lock_additional_collateral(new_vault_id, collateral) {
            Ok(()) => {}
            Err(e) => {
                proof {
                    assert(false);
                }
                return Err(e);
            }
        }
        let ghost s3 = *self;
        match self.try_increase_to_be_redeemed_tokens(old_vault_id, btc_amount) {
            Ok(()) => {}
            Err(e) => {
                proof {
                    assert(false);
                }
                return Err(e);
            }
        }
        match self.try_increase_to_be_issued_tokens(new_vault_id, btc_amount) {
            Ok(()) => {}
            Err(e) => {
                proof {
                    assert(false);
                }
                return Err(e);
            }
        }
        let ghost s5 = *self;
        let replace_id = match self.get_secure_id() {
            Ok(id) => id,
            Err(e) => {
                proof {
                    assert(false);
                }
                return Err(e);
            }
        };
        proof {
            if self.has_replace(replace_id) {
                let i = index_of_key(self.replace_requests@, replace_id);
                assert(0 <= i < self.replace_requests@.len()
                    && self.replace_requests@[i].key() == replace_id);
                assert(old(self).replace_requests@[i].id < old(self).nonce);
            }
        }
        self.push_replace(ReplaceRequest {
            id: replace_id,
            old_vault: old_vault_id,
            new_vault: Some(new_vault_id),
            open_time: self.current_height,
            accept_time: Some(self.current_height),
            amount: btc_amount,
            griefing_collateral: griefing,
            collateral,
            btc_address: Some(btc_address),
            completed: false,
            cancelled: false,
        });
        proof {
            Bridge::lemma_same_collateral_views(s3, *self);
            Bridge::lemma_same_vault_views(s1, s2);
            Bridge::lemma_same_vault_views(s5, *self);
            Bridge::lemma_same_replace_views(*old(self), s5);
            Bridge::lemma_same_treasury_views(*old(self), *self);
        }
        Ok(AuctionReplaceEvent {
            replace_id,
            old_vault: old_vault_id,
            new_vault: new_vault_id,
            btc_amount,
            collateral,
            reward,
            griefing_collateral: griefing,
            current_height: self.current_height,
            btc_address,
        })
    }

    /// Conditions under which `execute_replace` succeeds.
    pub open spec fn spec_can_execute_replace(self, replace_id: RequestId, payment: BtcPayment)
        -> bool {
        let req = self.replace_of(replace_id);
        let ov = self.vault_of(req.old_vault);
        let nv = self.vault_of(req.new_vault.unwrap());
        &&& self.running
        &&& self.has_replace(replace_id)
        &&& req.is_open()
        &&& req.is_accepted()
        &&& !(Bridge::spec_replace_start(req) + self.params.replace_period
            < self.current_height)
        &&& req.btc_address is Some
        &&& payment.recipient == req.btc_address.unwrap()
        &&& payment.amount >= req.amount
        &&& payment.op_return == Some(replace_id)
        &&& self.has_vault(req.old_vault)
        &&& self.has_vault(req.new_vault.unwrap())
        &&& ov.to_be_redeemed_tokens >= req.amount
        &&& nv.to_be_issued_tokens >= req.amount
        &&& (req.old_vault != req.new_vault.unwrap()
            ==> nv.issued_tokens + req.amount <= u128::MAX)
        &&& ov.backing_collateral >= req.collateral
        &&& self.dot_free(req.old_vault) + req.collateral + req.griefing_collateral
            <= u128::MAX
        &&& self.dot_locked(req.old_vault) >= req.griefing_collateral
    }

    /// The error kind `execute_replace` reports for a failing input, in the
    /// order its checks run.
    pub open spec fn spec_execute_replace_err(self, replace_id: RequestId, payment: BtcPayment)
        -> Error {
        let req = self.replace_of(replace_id);
        let new_vault_id = req.new_vault.unwrap();
        let ov = self.vault_of(req.old_vault);
        let nv = self.vault_of(new_vault_id);
        if !self.running {
            Error::ParachainNotRunning
        } else if !self.has_replace(replace_id) {
            Error::ReplaceIdNotFound
        } else if req.completed {
            Error::ReplaceCompleted
        } else if req.cancelled {
            Error::ReplaceCancelled
        } else if !req.is_accepted() {
            Error::NoPendingRequest
        } else if Bridge::spec_replace_start(req) + self.params.replace_period
            < self.current_height {
            Error::ReplacePeriodExpired
        } else if !(req.btc_address is Some) {
            Error::NoPendingRequest
        } else if payment.recipient != req.btc_address.unwrap() || payment.amount < req.amount
            || payment.op_return != Some(replace_id) {
            Error::InvalidPayment
        } else if !self.has_vault(req.old_vault) {
            Error::VaultNotFound
        } else if !self.has_vault(new_vault_id) {
            Error::VaultNotFound
        } else if ov.to_be_redeemed_tokens < req.amount {
            Error::ArithmeticUnderflow
        } else if nv.to_be_issued_tokens < req.amount {
            Error::ArithmeticUnderflow
        } else if req.old_vault != new_vault_id && nv.issued_tokens + req.amount > u128::MAX {
            Error::ArithmeticOverflow
        } else if ov.backing_collateral < req.collateral {
            Error::InsufficientFunds
        } else if self.dot_free(req.old_vault) + req.collateral + req.griefing_collateral
            > u128::MAX {
            Error::ArithmeticOverflow
        } else {
            // the remaining failing case: the old vault's locked griefing
            // collateral is short
            Error::InsufficientFunds
        }
    }

    /// Completes an accepted replace against the attested payment: the
    /// tokens move from the old vault to the new one, the matched share of
    /// the old vault's backing collateral is released, and its griefing
    /// collateral returned.
    pub fn execute_replace(&mut self, replace_id: RequestId, payment: BtcPayment) -> (r: Result<
        ExecuteReplaceEvent,
        Error,
    >)
        requires
            old(self).inv(),
        ensures
            final(self).inv(),
            r is Ok <==> old(self).spec_can_execute_replace(replace_id, payment),
            r matches Err(e) ==> *final(self) == *old(self) && e == old(
                self,
            ).spec_execute_replace_err(replace_id, payment),
            r matches Ok(ev) ==> {
                let req = old(self).replace_of(replace_id);
                let new_vault_id = req.new_vault.unwrap();
                let ov = old(self).vault_of(req.old_vault);
                let nv = old(self).vault_of(new_vault_id);
                let amount = req.amount;
                &&& ev == (ExecuteReplaceEvent {
                    replace_id,
                    old_vault: req.old_vault,
                    new_vault: new_vault_id,
                })
                &&& *final(self) == (Bridge {
                    vaults: final(self).vaults,
                    collateral: final(self).collateral,
                    replace_requests: final(self).replace_requests,
                    ..*old(self)
                })
                &&& final(self).replace_of(replace_id) == (ReplaceRequest {
                    completed: true,
                    ..req
                })
                &&& forall|x: RequestId| x != replace_id
                    ==> (final(self).has_replace(x) <==> old(self).has_replace(x))
                &&& forall|x: RequestId| x != replace_id && old(self).has_replace(x)
                    ==> final(self).replace_of(x) == old(self).replace_of(x)
                &&& (req.old_vault != new_vault_id ==> {
                    &&& final(self).vault_of(req.old_vault) == (Vault {
                        issued_tokens: (ov.issued_tokens - amount) as u128,
                        to_be_redeemed_tokens: (ov.to_be_redeemed_tokens - amount) as u128,
                        backing_collateral: (ov.backing_collateral - req.collateral) as u128,
                        ..ov
                    })
                    &&& final(self).vault_of(new_vault_id) == (Vault {
                        issued_tokens: (nv.issued_tokens + amount) as u128,
                        to_be_issued_tokens: (nv.to_be_issued_tokens - amount) as u128,
                        ..nv
                    })
                })
                &&& (req.old_vault == new_vault_id
                    ==> final(self).vault_of(req.old_vault) == (Vault {
                        to_be_redeemed_tokens: (ov.to_be_redeemed_tokens - amount) as u128,
                        to_be_issued_tokens: (ov.to_be_issued_tokens - amount) as u128,
                        backing_collateral: (ov.backing_collateral - req.collateral) as u128,
                        ..ov
                    }))
                &&& forall|x: AccountId| (final(self).has_vault(x) <==> old(self).has_vault(x))
                &&& forall|x: AccountId| x != req.old_vault && x != new_vault_id
                    && old(self).has_vault(x)
                    ==> final(self).vault_of(x) == old(self).vault_of(x)
                &&& final(self).dot_free(req.old_vault) == old(self).dot_free(req.old_vault)
                    + req.collateral + req.griefing_collateral
                &&& final(self).dot_locked(req.old_vault)
                    == old(self).dot_locked(req.old_vault) - req.griefing_collateral
                &&& forall|a: AccountId| a != req.old_vault
                    ==> final(self).dot_free(a) == old(self).dot_free(a)
                        && final(self).dot_locked(a) == old(self).dot_locked(a)
                &&& final(self).total_issued() == old(self).total_issued()
                &&& final(self).total_supply() == old(self).total_supply()
            },
    {
        self.ensure_parachain_status_running()?;
        let req = self.get_open_replace_request(replace_id)?;
        let new_vault_id = match req.new_vault {
            Some(v) => v,
            None => {
                return Err(Error::NoPendingRequest);
            }
        };
        let start = match req.accept_time {
            Some(t) => t,
            None => req.open_time,
        };
        if self.has_request_expired(start, self.params.replace_period) {
            return Err(Error::ReplacePeriodExpired);
        }
        let addr = match req.btc_address {
            Some(a) => a,
            None => {
                return Err(Error::NoPendingRequest);
            }
        };
        let valid_op_return = match payment.op_return {
            Some(id) => id == replace_id,
            None => false,
        };
        if payment.recipient != addr || payment.amount < req.amount || !valid_op_return {
            return Err(Error::InvalidPayment);
        }
        let ov = self.get_vault_from_id(req.old_vault)?;
        let nv = self.get_vault_from_id(new_vault_id)?;
        if ov.to_be_redeemed_tokens < req.amount {
            return Err(Error::ArithmeticUnderflow);
        }
        if nv.to_be_issued_tokens < req.amount {
            return Err(Error::ArithmeticUnderflow);
        }
        if req.old_vault != new_vault_id {
            if nv.issued_tokens.checked_add(req.amount).is_none() {
                return Err(Error::ArithmeticOverflow);
            }
        }
        if ov.backing_collateral < req.collateral {
            return Err(Error::InsufficientFunds);
        }
        let of = self.collateral.get_free(req.old_vault);
        let of1 = match of.checked_add(req.collateral) {
            Some(x) => x,
            None => {
                return Err(Error::ArithmeticOverflow);
            }
        };
        if of1.checked_add(req.griefing_collateral).is_none() {
            return Err(Error::ArithmeticOverflow);
        }
        let ol = self.collateral.get_locked(req.old_vault);
        if ol < req.griefing_collateral {
            return Err(Error::InsufficientFunds);
        }
        // commit phase
        match self.replace_tokens(req.old_vault, new_vault_id, req.amount, req.collateral) {
            Ok(()) => {}
            Err(e) => {
                proof {
                    assert(false);
                }
                return Err(e);
            }
        }
        let ghost s1 = *self;
        match self.release_collateral(req.old_vault, req.griefing_collateral) {
            Ok(()) => {}
            Err(e) => {
                proof {
                    assert(false);
                }
                return Err(e);
            }
        }
        let ghost s2 = *self;
        self.put_replace(ReplaceRequest { completed: true, ..req });
        proof {
            Bridge::lemma_same_vault_views(s1, *self);
            Bridge::lemma_same_collateral_views(s2, *self);
            Bridge::lemma_same_replace_views(*old(self), s2);
            Bridge::lemma_same_treasury_views(*old(self), *self);
        }
        Ok(ExecuteReplaceEvent {
            replace_id,
            old_vault: req.old_vault,
            new_vault: new_vault_id,
        })
    }

    /// Conditions under which `cancel_replace` succeeds.
    pub open spec fn spec_can_cancel_replace(self, caller: AccountId, replace_id: RequestId)
        -> bool {
        let req = self.replace_of(replace_id);
        let ov = self.vault_of(req.old_vault);
        let nv = self.vault_of(req.new_vault.unwrap());
        &&& self.running
        &&& self.has_replace(replace_id)
        &&& req.is_open()
        &&& Bridge::spec_replace_start(req) + self.params.replace_period < self.current_height
        &&& req.is_accepted()
        &&& caller == req.new_vault.unwrap()
        &&& self.has_vault(req.old_vault)
        &&& self.has_vault(req.new_vault.unwrap())
        &&& ov.to_be_redeemed_tokens >= req.amount
        &&& nv.to_be_issued_tokens >= req.amount
        &&& self.dot_locked(req.old_vault) >= req.griefing_collateral
        &&& self.dot_free(req.new_vault.unwrap()) + req.griefing_collateral <= u128::MAX
    }

    /// The error kind `cancel_replace` reports for a failing input, in the
    /// order its checks run.
    pub open spec fn spec_cancel_replace_err(self, caller: AccountId, replace_id: RequestId)
        -> Error {
        let req = self.replace_of(replace_id);
        let new_vault_id = req.new_vault.unwrap();
        let ov = self.vault_of(req.old_vault);
        let nv = self.vault_of(new_vault_id);
        if !self.running {
            Error::ParachainNotRunning
        } else if !self.has_replace(replace_id) {
            Error::ReplaceIdNotFound
        } else if req.completed {
            Error::ReplaceCompleted
        } else if req.cancelled {
            Error::ReplaceCancelled
        } else if !(Bridge::spec_replace_start(req) + self.params.replace_period
            < self.current_height) {
            Error::ReplacePeriodNotExpired
        } else if !req.is_accepted() {
            Error::NoPendingRequest
        } else if caller != new_vault_id {
            Error::UnauthorizedVault
        } else if !self.has_vault(req.old_vault) {
            Error::VaultNotFound
        } else if !self.has_vault(new_vault_id) {
            Error::VaultNotFound
        } else if ov.to_be_redeemed_tokens < req.amount {
            Error::ArithmeticUnderflow
        } else if nv.to_be_issued_tokens < req.amount {
            Error::ArithmeticUnderflow
        } else if self.dot_locked(req.old_vault) < req.griefing_collateral {
            Error::InsufficientFunds
        } else {
            // the remaining failing case: the new vault's balance ceiling
            Error::ArithmeticOverflow
        }
    }

    /// The new vault cancels an expired accepted replace: both vaults'
    /// counter commitments are reversed and the old vault's griefing
    /// collateral is slashed to the new vault.
    pub fn cancel_replace(&mut self, caller: AccountId, replace_id: RequestId) -> (r: Result<
        CancelReplaceEvent,
        Error,
    >)
        requires
            old(self).inv(),
        ensures
            final(self).inv(),
            r is Ok <==> old(self).spec_can_cancel_replace(caller, replace_id),
            r matches Err(e) ==> *final(self) == *old(self) && e == old(
                self,
            ).spec_cancel_replace_err(caller, replace_id),
            r matches Ok(ev) ==> {
                let req = old(self).replace_of(replace_id);
                let new_vault_id = req.new_vault.unwrap();
                let ov = old(self).vault_of(req.old_vault);
                let nv = old(self).vault_of(new_vault_id);
                let amount = req.amount;
                let g = req.griefing_collateral;
                &&& ev == (CancelReplaceEvent {
                    replace_id,
                    new_vault: new_vault_id,
                    old_vault: req.old_vault,
                    griefing_collateral: g,
                })
                &&& *final(self) == (Bridge {
                    vaults: final(self).vaults,
                    collateral: final(self).collateral,
                    replace_requests: final(self).replace_requests,
                    ..*old(self)
                })
                &&& final(self).replace_of(replace_id) == (ReplaceRequest {
                    cancelled: true,
                    ..req
                })
                &&& forall|x: RequestId| x != replace_id
                    ==> (final(self).has_replace(x) <==> old(self).has_replace(x))
                &&& forall|x: RequestId| x != replace_id && old(self).has_replace(x)
                    ==> final(self).replace_of(x) == old(self).replace_of(x)
                &&& (req.old_vault != new_vault_id ==> {
                    &&& final(self).vault_of(req.old_vault) == (Vault {
                        to_be_redeemed_tokens: (ov.to_be_redeemed_tokens - amount) as u128,
                        ..ov
                    })
                    &&& final(self).vault_of(new_vault_id) == (Vault {
                        to_be_issued_tokens: (nv.to_be_issued_tokens - amount) as u128,
                        ..nv
                    })
                })
                &&& (req.old_vault == new_vault_id
                    ==> final(self).vault_of(req.old_vault) == (Vault {
                        to_be_redeemed_tokens: (ov.to_be_redeemed_tokens - amount) as u128,
                        to_be_issued_tokens: (ov.to_be_issued_tokens - amount) as u128,
                        ..ov
                    }))
                &&& forall|x: AccountId| (final(self).has_vault(x) <==> old(self).has_vault(x))
                &&& forall|x: AccountId| x != req.old_vault && x != new_vault_id
                    && old(self).has_vault(x)
                    ==> final(self).vault_of(x) == old(self).vault_of(x)
                &&& final(self).dot_locked(req.old_vault)
                    == old(self).dot_locked(req.old_vault) - g
                &&& final(self).dot_free(new_vault_id) == old(self).dot_free(new_vault_id) + g
                &&& forall|a: AccountId| a != req.old_vault
                    ==> final(self).dot_locked(a) == old(self).dot_locked(a)
                &&& forall|a: AccountId| a != new_vault_id
                    ==> final(self).dot_free(a) == old(self).dot_free(a)
                &&& final(self).total_issued() == old(self).total_issued()
                &&& final(self).total_supply() == old(self).total_supply()
            },
    {
        self.ensure_parachain_status_running()?;
        let req = self.get_open_replace_request(replace_id)?;
        let start = match req.accept_time {
            Some(t) => t,
            None => req.open_time,
        };
        if !self.has_request_expired(start, self.params.replace_period) {
            return Err(Error::ReplacePeriodNotExpired);
        }
        let new_vault_id = match req.new_vault {
            Some(v) => v,
            None => {
                return Err(Error::NoPendingRequest);
            }
        };
        if caller != new_vault_id {
            return Err(Error::UnauthorizedVault);
        }
        let ov = self.get_vault_from_id(req.old_vault)?;
        let nv = self.get_vault_from_id(new_vault_id)?;
        if ov.to_be_redeemed_tokens < req.amount {
            return Err(Error::ArithmeticUnderflow);
        }
        if nv.to_be_issued_tokens < req.amount {
            return Err(Error::ArithmeticUnderflow);
        }
        let g = req.griefing_collateral;
        let ol = self.collateral.get_locked(req.old_vault);
        if ol < g {
            return Err(Error::InsufficientFunds);
        }
        let nf = self.collateral.get_free(new_vault_id);
        if nf.checked_add(g).is_none() {
            return Err(Error::ArithmeticOverflow);
        }
        // commit phase
        match self.cancel_replace_tokens(req.old_vault, new_vault_id, req.amount) {
            Ok(()) => {}
            Err(e) => {
                proof {
                    assert(false);
                }
                return Err(e);
            }
        }
        let ghost s1 = *self;
        match self.slash_collateral(
            CurrencySource::Griefing(req.old_vault),
            CurrencySource::FreeBalance(new_vault_id),
            g,
        ) {
            Ok(()) => {}
            Err(e) => {
                proof {
                    assert(false);
                }
                return Err(e);
            }
        }
        let ghost s2 = *self;
        self.put_replace(ReplaceRequest { cancelled: true, ..req });
        proof {
            Bridge::lemma_same_collateral_views(*old(self), s1);
            Bridge::lemma_same_collateral_views(s2, *self);
            Bridge::lemma_same_vault_views(s2, *self);
            Bridge::lemma_same_replace_views(*old(self), s2);
            Bridge::lemma_same_treasury_views(*old(self), *self);
        }
        Ok(CancelReplaceEvent {
            replace_id,
            new_vault: new_vault_id,
            old_vault: req.old_vault,
            griefing_collateral: g,
        })
    }
}

} // verus!
