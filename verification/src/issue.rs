//! The issue protocol: a user requests issuance against a vault, pays BTC to
//! the vault's deposit address on the backing chain, and executes the
//! request to mint wBTC; an expired request is cancelled and the requester's
//! griefing collateral slashed to the vault.

use vstd::prelude::*;
use crate::bridge::Bridge;
use crate::errors::Error;
use crate::fixed_point::FIXED_POINT_HALF;
use crate::table::{index_of_key, Keyed};
use crate::types::{
    AccountId, Amount, BtcAddress, BtcPayment, CancelIssueEvent, CurrencySource,
    ExecuteIssueEvent, IssueRequest, RefundRequest, RequestId, RequestIssueEvent, SystemVault,
    Vault, VaultStatus,
};

verus! {

/// The issue requests opened by one account, in table order.
pub open spec fn issues_for_account(s: Seq<IssueRequest>, account_id: AccountId)
    -> Seq<IssueRequest> {
    s.filter(|q: IssueRequest| q.requester == account_id)
}

/// The issue requests directed at one vault, in table order.
pub open spec fn issues_for_vault(s: Seq<IssueRequest>, vault_id: AccountId)
    -> Seq<IssueRequest> {
    s.filter(|q: IssueRequest| q.vault == vault_id)
}

proof fn lemma_issues_for_account_take_succ(s: Seq<IssueRequest>, a: AccountId, i: int)
    requires
        0 <= i < s.len(),
    ensures
        issues_for_account(s.take(i + 1), a) == if s[i].requester == a {
            issues_for_account(s.take(i), a).push(s[i])
        } else {
            issues_for_account(s.take(i), a)
        },
{
    reveal(Seq::filter);
    assert(s.take(i + 1).drop_last() =~= s.take(i));
    assert(s.take(i + 1).last() == s[i]);
}

proof fn lemma_issues_for_vault_take_succ(s: Seq<IssueRequest>, v: AccountId, i: int)
    requires
        0 <= i < s.len(),
    ensures
        issues_for_vault(s.take(i + 1), v) == if s[i].vault == v {
            issues_for_vault(s.take(i), v).push(s[i])
        } else {
            issues_for_vault(s.take(i), v)
        },
{
    reveal(Seq::filter);
    assert(s.take(i + 1).drop_last() =~= s.take(i));
    assert(s.take(i + 1).last() == s[i]);
}

impl Bridge {
    /// All issue requests opened by the account, open or settled.
    pub fn get_issue_requests_for_account(&self, account_id: AccountId) -> (r: Vec<IssueRequest>)
        ensures
            r@ == issues_for_account(self.issue_requests@, account_id),
    {
        let ghost whole = self.issue_requests@;
        let mut out: Vec<IssueRequest> = Vec::new();
        let mut i: usize = 0;
        proof {
            reveal(Seq::filter);
            assert(whole.take(0) =~= Seq::<IssueRequest>::empty());
        }
        while i < self.issue_requests.len()
            invariant
                i <= self.issue_requests@.len(),
                whole == self.issue_requests@,
                out@ == issues_for_account(whole.take(i as int), account_id),
            decreases self.issue_requests@.len() - i,
        {
            let req = self.issue_requests[i];
            proof {
                lemma_issues_for_account_take_succ(whole, account_id, i as int);
            }
            if req.requester == account_id {
                out.push(req);
            }
            i += 1;
        }
        proof {
            assert(whole.take(whole.len() as int) =~= whole);
        }
        out
    }

    /// All issue requests directed at the vault, open or settled.
    pub fn get_issue_requests_for_vault(&self, vault_id: AccountId) -> (r: Vec<IssueRequest>)
        ensures
            r@ == issues_for_vault(self.issue_requests@, vault_id),
    {
        let ghost whole = self.issue_requests@;
        let mut out: Vec<IssueRequest> = Vec::new();
        let mut i: usize = 0;
        proof {
            reveal(Seq::filter);
            assert(whole.take(0) =~= Seq::<IssueRequest>::empty());
        }
        while i < self.issue_requests.len()
            invariant
                i <= self.issue_requests@.len(),
                whole == self.issue_requests@,
                out@ == issues_for_vault(whole.take(i as int), vault_id),
            decreases self.issue_requests@.len() - i,
        {
            let req = self.issue_requests[i];
            proof {
                lemma_issues_for_vault_take_succ(whole, vault_id, i as int);
            }
            if req.vault == vault_id {
                out.push(req);
            }
            i += 1;
        }
        proof {
            assert(whole.take(whole.len() as int) =~= whole);
        }
        out
    }

    /// Conditions under which `request_issue` succeeds.
    pub open spec fn spec_can_request_issue(
        self,
        requester: AccountId,
        amount: Amount,
        vault_id: AccountId,
        griefing_collateral: Amount,
    ) -> bool {
        let value = self.spec_value_of(amount as int);
        let expected = self.params.issue_griefing_collateral.spec_mul_round_i(value);
        let fee = self.params.issue_fee.spec_mul_round(amount);
        &&& self.running
        &&& self.has_vault(vault_id)
        &&& self.vault_of(vault_id).status is Active
        &&& !self.vault_of(vault_id).is_banned_at(self.current_height)
        &&& self.exchange_rate.inner * amount <= u128::MAX
        &&& self.params.issue_griefing_collateral.inner * value + FIXED_POINT_HALF <= u128::MAX
        &&& griefing_collateral >= expected
        &&& self.params.issue_fee.inner * amount + FIXED_POINT_HALF <= u128::MAX
        &&& amount + fee <= u128::MAX
        &&& self.nonce < u64::MAX
        &&& self.dot_free(requester) >= griefing_collateral
        &&& self.dot_locked(requester) + griefing_collateral <= u128::MAX
        &&& self.spec_can_increase_to_be_issued(vault_id, (amount + fee) as u128)
    }

    /// The error kind `request_issue` reports for a failing input, in the
    /// order its checks run.
    pub open spec fn spec_request_issue_err(
        self,
        requester: AccountId,
        amount: Amount,
        vault_id: AccountId,
        griefing_collateral: Amount,
    ) -> Error {
        let v = self.vault_of(vault_id);
        let value = self.spec_value_of(amount as int);
        let expected = self.params.issue_griefing_collateral.spec_mul_round_i(value);
        let fee = self.params.issue_fee.spec_mul_round(amount);
        if !self.running {
            Error::ParachainNotRunning
        } else if !self.has_vault(vault_id) || !(v.status is Active) {
            Error::VaultNotFound
        } else if v.is_banned_at(self.current_height) {
            Error::VaultBanned
        } else if self.exchange_rate.inner * amount > u128::MAX {
            Error::ArithmeticOverflow
        } else if self.params.issue_griefing_collateral.inner * value + FIXED_POINT_HALF
            > u128::MAX {
            Error::ArithmeticOverflow
        } else if griefing_collateral < expected {
            Error::InsufficientCollateral
        } else if self.params.issue_fee.inner * amount + FIXED_POINT_HALF > u128::MAX {
            Error::ArithmeticOverflow
        } else if amount + fee > u128::MAX {
            Error::ArithmeticOverflow
        } else if self.nonce == u64::MAX {
            Error::ArithmeticOverflow
        } else if self.dot_free(requester) < griefing_collateral {
            Error::InsufficientFunds
        } else if self.dot_locked(requester) + griefing_collateral > u128::MAX {
            Error::ArithmeticOverflow
        } else if v.to_be_issued_tokens + (amount + fee) > u128::MAX
            || v.issued_tokens + v.to_be_issued_tokens + (amount + fee) > u128::MAX
            || !self.threshold_computable(
                self.params.secure_collateral_threshold,
                v.issued_tokens + v.to_be_issued_tokens + (amount + fee)
                    - v.to_be_redeemed_tokens,
            ) {
            Error::ArithmeticOverflow
        } else {
            Error::ExceedingVaultLimit
        }
    }

    /// Opens an issue request: checks the vault, locks the requester's
    /// griefing collateral, commits the vault to the amount plus fee, and
    /// registers a fresh deposit address.
    pub fn request_issue(
        &mut self,
        requester: AccountId,
        amount: Amount,
        vault_id: AccountId,
        griefing_collateral: Amount,
    ) -> (r: Result<RequestIssueEvent, Error>)
        requires
            old(self).inv(),
        ensures
            final(self).inv(),
            r is Ok <==> old(self).spec_can_request_issue(
                requester,
                amount,
                vault_id,
                griefing_collateral,
            ),
            r matches Err(e) ==> *final(self) == *old(self) && e == old(
                self,
            ).spec_request_issue_err(requester, amount, vault_id, griefing_collateral),
            r matches Ok(ev) ==> {
                let fee = (old(self).params.issue_fee.spec_mul_round(amount)) as u128;
                let total = (amount + fee) as u128;
                let issue_id = old(self).nonce;
                let v = old(self).vault_of(vault_id);
                &&& ev == (RequestIssueEvent {
                    issue_id,
                    requester,
                    amount_btc: total,
                    fee,
                    griefing_collateral,
                    vault_id,
                    vault_btc_address: (BtcAddress { value: issue_id }),
                    vault_public_key: v.public_key,
                })
                &&& *final(self) == (Bridge {
                    vaults: final(self).vaults,
                    collateral: final(self).collateral,
                    issue_requests: final(self).issue_requests,
                    nonce: (old(self).nonce + 1) as u64,
                    ..*old(self)
                })
                &&& !old(self).has_issue(issue_id)
                &&& final(self).has_issue(issue_id)
                &&& final(self).issue_of(issue_id) == (IssueRequest {
                    id: issue_id,
                    requester,
                    vault: vault_id,
                    opentime: old(self).current_height,
                    amount,
                    fee,
                    griefing_collateral,
                    btc_address: (BtcAddress { value: issue_id }),
                    btc_public_key: v.public_key,
                    completed: false,
                    cancelled: false,
                })
                &&& forall|x: RequestId| x != issue_id
                    ==> (final(self).has_issue(x) <==> old(self).has_issue(x))
                &&& forall|x: RequestId| x != issue_id && old(self).has_issue(x)
                    ==> final(self).issue_of(x) == old(self).issue_of(x)
                &&& final(self).vault_of(vault_id) == (Vault {
                    to_be_issued_tokens: (v.to_be_issued_tokens + total) as u128,
                    ..v
                })
                &&& forall|x: AccountId| (final(self).has_vault(x) <==> old(self).has_vault(x))
                &&& forall|x: AccountId| x != vault_id && old(self).has_vault(x)
                    ==> final(self).vault_of(x) == old(self).vault_of(x)
                &&& final(self).dot_free(requester) == old(self).dot_free(requester)
                    - griefing_collateral
                &&& final(self).dot_locked(requester) == old(self).dot_locked(requester)
                    + griefing_collateral
                &&& forall|a: AccountId| a != requester
                    ==> final(self).dot_free(a) == old(self).dot_free(a)
                        && final(self).dot_locked(a) == old(self).dot_locked(a)
                &&& final(self).total_issued() == old(self).total_issued()
                &&& final(self).total_supply() == old(self).total_supply()
            },
    {
        self.ensure_parachain_status_running()?;
        let v = self.get_active_vault_from_id(vault_id)?;
        self.ensure_not_banned(vault_id)?;
        let amount_dot = self.btc_to_dots(amount)?;
        let expected_griefing = self.get_issue_griefing_collateral(amount_dot)?;
        if griefing_collateral < expected_griefing {
            return Err(Error::InsufficientCollateral);
        }
        let fee = self.get_issue_fee(amount)?;
        let total = match amount.checked_add(fee) {
            Some(x) => x,
            None => {
                return Err(Error::ArithmeticOverflow);
            }
        };
        if self.nonce == u64::MAX {
            return Err(Error::ArithmeticOverflow);
        }
        let df = self.collateral.get_free(requester);
        if df < griefing_collateral {
            return Err(Error::InsufficientFunds);
        }
        let dl = self.collateral.get_locked(requester);
        if dl.checked_add(griefing_collateral).is_none() {
            return Err(Error::ArithmeticOverflow);
        }
        self.try_increase_to_be_issued_tokens(vault_id, total)?;
        let ghost s1 = *self;
        let issue_id = match self.get_secure_id() {
            Ok(id) => id,
            Err(e) => {
                proof {
                    assert(false);
                }
                return Err(e);
            }
        };
        let ghost s2 = *self;
        match self.lock_collateral(requester, griefing_collateral) {
            Ok(()) => {}
            Err(e) => {
                proof {
                    assert(false);
                }
                return Err(e);
            }
        }
        let ghost s3 = *self;
        let btc_address = match self.register_deposit_address(vault_id, issue_id) {
            Ok(a) => a,
            Err(e) => {
                proof {
                    assert(false);
                }
                return Err(e);
            }
        };
        proof {
            if self.has_issue(issue_id) {
                let i = index_of_key(self.issue_requests@, issue_id);
                assert(0 <= i < self.issue_requests@.len()
                    && self.issue_requests@[i].key() == issue_id);
                assert(old(self).issue_requests@[i].id < old(self).nonce);
            }
        }
        self.push_issue(IssueRequest {
            id: issue_id,
            requester,
            vault: vault_id,
            opentime: self.current_height,
            amount,
            fee,
            griefing_collateral,
            btc_address,
            btc_public_key: v.public_key,
            completed: false,
            cancelled: false,
        });
        proof {
            Bridge::lemma_same_vault_views(s1, *self);
            Bridge::lemma_same_collateral_views(*old(self), s2);
            Bridge::lemma_same_collateral_views(s3, *self);
            Bridge::lemma_same_issue_views(*old(self), s3);
            Bridge::lemma_same_treasury_views(*old(self), *self);
        }
        Ok(RequestIssueEvent {
            issue_id,
            requester,
            amount_btc: total,
            fee,
            griefing_collateral,
            vault_id,
            vault_btc_address: btc_address,
            vault_public_key: v.public_key,
        })
    }

    /// Whether an overpaying issue execution is absorbed by the vault: the
    /// vault is not liquidated and can commit to the surplus at the secure
    /// threshold, so the request is rewritten instead of refunded.
    pub open spec fn spec_issue_overpay_absorbed(self, issue_id: RequestId, payment: BtcPayment)
        -> bool {
        let issue = self.issue_of(issue_id);
        let total = issue.amount + issue.fee;
        &&& !self.vault_of(issue.vault).is_liquidated()
        &&& payment.amount > total
        &&& self.spec_can_increase_to_be_issued(issue.vault, (payment.amount - total) as u128)
    }

    /// The fee column of the request after execution.
    pub open spec fn spec_issue_final_fee(self, issue_id: RequestId, payment: BtcPayment) -> int {
        if self.spec_issue_overpay_absorbed(issue_id, payment) {
            self.spec_issue_fee_from_total(payment.amount as int)
        } else {
            self.issue_of(issue_id).fee as int
        }
    }

    /// The amount column of the request after execution.
    pub open spec fn spec_issue_final_amount(self, issue_id: RequestId, payment: BtcPayment)
        -> int {
        if self.spec_issue_overpay_absorbed(issue_id, payment) {
            payment.amount - self.spec_issue_fee_from_total(payment.amount as int)
        } else {
            self.issue_of(issue_id).amount as int
        }
    }

    /// The total the vault ends up issuing.
    pub open spec fn spec_issue_final_total(self, issue_id: RequestId, payment: BtcPayment)
        -> int {
        if self.spec_issue_overpay_absorbed(issue_id, payment) {
            payment.amount as int
        } else {
            self.issue_of(issue_id).amount + self.issue_of(issue_id).fee
        }
    }

    /// Conditions under which `execute_issue` succeeds.
    pub open spec fn spec_can_execute_issue(self, issue_id: RequestId, payment: BtcPayment)
        -> bool {
        let issue = self.issue_of(issue_id);
        let total = issue.amount + issue.fee;
        let v = self.vault_of(issue.vault);
        let lv = self.liquidation_vault;
        let fa = self.spec_issue_final_amount(issue_id, payment);
        let ff = self.spec_issue_final_fee(issue_id, payment);
        &&& self.running
        &&& self.has_issue(issue_id)
        &&& issue.is_open()
        &&& !(issue.opentime + self.params.issue_period < self.current_height)
        &&& total <= u128::MAX
        &&& payment.recipient == issue.btc_address
        &&& payment.amount >= total
        &&& self.has_vault(issue.vault)
        &&& self.dot_locked(issue.requester) >= issue.griefing_collateral
        &&& self.dot_free(issue.requester) + issue.griefing_collateral <= u128::MAX
        &&& (v.is_liquidated() ==> lv.to_be_issued_tokens >= total
            && lv.issued_tokens + total <= u128::MAX)
        &&& (!v.is_liquidated() ==> v.to_be_issued_tokens >= total
            && v.issued_tokens + total <= u128::MAX)
        &&& (self.spec_issue_overpay_absorbed(issue_id, payment)
            ==> self.spec_issue_fee_from_total_computable(payment.amount as int)
                && self.spec_issue_fee_from_total(payment.amount as int) <= payment.amount)
        &&& (if issue.requester == self.params.fee_pool_account_id {
            self.tokens_free(issue.requester) + fa + ff <= u128::MAX
        } else {
            self.tokens_free(issue.requester) + fa <= u128::MAX
                && self.tokens_free(self.params.fee_pool_account_id) + ff <= u128::MAX
        })
    }

    /// The error kind `execute_issue` reports for a failing input, in the
    /// order its checks run.
    pub open spec fn spec_execute_issue_err(self, issue_id: RequestId, payment: BtcPayment)
        -> Error {
        let issue = self.issue_of(issue_id);
        let total = issue.amount + issue.fee;
        let v = self.vault_of(issue.vault);
        let lv = self.liquidation_vault;
        if !self.running {
            Error::ParachainNotRunning
        } else if !self.has_issue(issue_id) {
            Error::IssueIdNotFound
        } else if issue.completed {
            Error::IssueCompleted
        } else if issue.cancelled {
            Error::IssueCancelled
        } else if issue.opentime + self.params.issue_period < self.current_height {
            Error::CommitPeriodExpired
        } else if total > u128::MAX {
            Error::ArithmeticOverflow
        } else if payment.recipient != issue.btc_address || payment.amount < total {
            Error::InvalidPayment
        } else if !self.has_vault(issue.vault) {
            Error::VaultNotFound
        } else if self.dot_locked(issue.requester) < issue.griefing_collateral {
            Error::InsufficientFunds
        } else if self.dot_free(issue.requester) + issue.griefing_collateral > u128::MAX {
            Error::ArithmeticOverflow
        } else if v.is_liquidated() && lv.to_be_issued_tokens < total {
            Error::ArithmeticUnderflow
        } else if v.is_liquidated() && lv.issued_tokens + total > u128::MAX {
            Error::ArithmeticOverflow
        } else if !v.is_liquidated() && v.to_be_issued_tokens < total {
            Error::ArithmeticUnderflow
        } else if !v.is_liquidated() && v.issued_tokens + total > u128::MAX {
            Error::ArithmeticOverflow
        } else if self.spec_issue_overpay_absorbed(issue_id, payment)
            && !self.spec_issue_fee_from_total_computable(payment.amount as int) {
            Error::ArithmeticOverflow
        } else if self.spec_issue_overpay_absorbed(issue_id, payment)
            && self.spec_issue_fee_from_total(payment.amount as int) > payment.amount {
            Error::ArithmeticUnderflow
        } else {
            // the remaining failing case is the minting capacity check
            Error::ArithmeticOverflow
        }
    }

    /// Completes an issue request against the payment the backing-chain
    /// verifier attested: issues the tokens on the vault (or, for a
    /// liquidated vault, on the liquidation vault), releases the
    /// requester's griefing collateral, and mints the amount to the
    /// requester and the fee to the fee pool. An overpayment is either
    /// absorbed — the request is rewritten to the amount actually paid — or
    /// handed to the refund module, never both.
    pub fn execute_issue(
        &mut self,
        _executor: AccountId,
        issue_id: RequestId,
        payment: BtcPayment,
        refund_address: BtcAddress,
    ) -> (r: Result<ExecuteIssueEvent, Error>)
        requires
            old(self).inv(),
        ensures
            final(self).inv(),
            r is Ok <==> old(self).spec_can_execute_issue(issue_id, payment),
            r matches Err(e) ==> *final(self) == *old(self) && e == old(
                self,
            ).spec_execute_issue_err(issue_id, payment),
            r matches Ok(ev) ==> {
                let issue = old(self).issue_of(issue_id);
                let total = issue.amount + issue.fee;
                let v = old(self).vault_of(issue.vault);
                let lv = old(self).liquidation_vault;
                let liq = v.is_liquidated();
                let absorbed = old(self).spec_issue_overpay_absorbed(issue_id, payment);
                let fa = old(self).spec_issue_final_amount(issue_id, payment);
                let ff = old(self).spec_issue_final_fee(issue_id, payment);
                let ft = old(self).spec_issue_final_total(issue_id, payment);
                let g = issue.griefing_collateral;
                let pool = old(self).params.fee_pool_account_id;
                &&& fa + ff == ft
                &&& ev == (ExecuteIssueEvent {
                    issue_id,
                    requester: issue.requester,
                    total_amount: ft as u128,
                    vault_id: issue.vault,
                    refund: if !liq && payment.amount > total && !absorbed {
                        Some(RefundRequest {
                            surplus: (payment.amount - total) as u128,
                            vault: issue.vault,
                            requester: issue.requester,
                            refund_address,
                            issue_id,
                        })
                    } else {
                        None
                    },
                })
                &&& *final(self) == (Bridge {
                    vaults: final(self).vaults,
                    liquidation_vault: final(self).liquidation_vault,
                    collateral: final(self).collateral,
                    treasury: final(self).treasury,
                    issue_requests: final(self).issue_requests,
                    ..*old(self)
                })
                &&& final(self).issue_of(issue_id) == (IssueRequest {
                    amount: fa as u128,
                    fee: ff as u128,
                    completed: true,
                    ..issue
                })
                &&& forall|x: RequestId| x != issue_id
                    ==> (final(self).has_issue(x) <==> old(self).has_issue(x))
                &&& forall|x: RequestId| x != issue_id && old(self).has_issue(x)
                    ==> final(self).issue_of(x) == old(self).issue_of(x)
                &&& (liq ==> final(self).vaults@ == old(self).vaults@
                    && final(self).liquidation_vault == (SystemVault {
                        to_be_issued_tokens: (lv.to_be_issued_tokens - ft) as u128,
                        issued_tokens: (lv.issued_tokens + ft) as u128,
                        ..lv
                    }))
                &&& (!liq ==> {
                    &&& final(self).liquidation_vault == old(self).liquidation_vault
                    &&& final(self).vault_of(issue.vault) == (Vault {
                        to_be_issued_tokens: (v.to_be_issued_tokens - total) as u128,
                        issued_tokens: (v.issued_tokens + ft) as u128,
                        ..v
                    })
                    &&& forall|x: AccountId| (final(self).has_vault(x)
                        <==> old(self).has_vault(x))
                    &&& forall|x: AccountId| x != issue.vault && old(self).has_vault(x)
                        ==> final(self).vault_of(x) == old(self).vault_of(x)
                })
                &&& final(self).dot_locked(issue.requester) == old(self).dot_locked(
                    issue.requester,
                ) - g
                &&& final(self).dot_free(issue.requester) == old(self).dot_free(issue.requester)
                    + g
                &&& forall|a: AccountId| a != issue.requester
                    ==> final(self).dot_free(a) == old(self).dot_free(a)
                        && final(self).dot_locked(a) == old(self).dot_locked(a)
                &&& (issue.requester == pool
                    ==> final(self).tokens_free(issue.requester)
                        == old(self).tokens_free(issue.requester) + fa + ff)
                &&& (issue.requester != pool
                    ==> final(self).tokens_free(issue.requester)
                        == old(self).tokens_free(issue.requester) + fa
                        && final(self).tokens_free(pool) == old(self).tokens_free(pool) + ff)
                &&& forall|a: AccountId| a != issue.requester && a != pool
                    ==> final(self).tokens_free(a) == old(self).tokens_free(a)
                &&& forall|a: AccountId| final(self).tokens_locked(a)
                    == old(self).tokens_locked(a)
                &&& final(self).total_supply() == old(self).total_supply() + ft
                &&& final(self).total_issued() == old(self).total_issued() + ft
                &&& (old(self).supply_matches_issued() ==> final(self).supply_matches_issued())
            },
    {
        self.ensure_parachain_status_running()?;
        let issue = self.get_issue_request_from_id(issue_id)?;
        if self.has_request_expired(issue.opentime, self.params.issue_period) {
            return Err(Error::CommitPeriodExpired);
        }
        let total = match issue.amount.checked_add(issue.fee) {
            Some(x) => x,
            None => {
                return Err(Error::ArithmeticOverflow);
            }
        };
        if payment.recipient != issue.btc_address || payment.amount < total {
            return Err(Error::InvalidPayment);
        }
        let v = self.get_vault_from_id(issue.vault)?;
        let dl = self.collateral.get_locked(issue.requester);
        if dl < issue.griefing_collateral {
            return Err(Error::InsufficientFunds);
        }
        let df = self.collateral.get_free(issue.requester);
        if df.checked_add(issue.griefing_collateral).is_none() {
            return Err(Error::ArithmeticOverflow);
        }
        let liquidated = matches!(v.status, VaultStatus::Liquidated);

        let mut final_amount = issue.amount;
        let mut final_fee = issue.fee;
        let mut final_total = total;
        let mut absorbed = false;
        if liquidated {
            let lv = self.liquidation_vault;
            if lv.to_be_issued_tokens < total {
                return Err(Error::ArithmeticUnderflow);
            }
            if lv.issued_tokens.checked_add(total).is_none() {
                return Err(Error::ArithmeticOverflow);
            }
        } else {
            if v.to_be_issued_tokens < total {
                return Err(Error::ArithmeticUnderflow);
            }
            if v.issued_tokens.checked_add(total).is_none() {
                return Err(Error::ArithmeticOverflow);
            }
            if payment.amount > total {
                let surplus = payment.amount - total;
                let can_absorb: bool = if !matches!(v.status, VaultStatus::Active) {
                    false
                } else {
                    match v.to_be_issued_tokens.checked_add(surplus) {
                        None => false,
                        Some(ntbi) => match v.issued_tokens.checked_add(ntbi) {
                            None => false,
                            Some(s) => {
                                proof {
                                    self.lemma_vault_counters_ok(issue.vault);
                                }
                                let outs = s - v.to_be_redeemed_tokens;
                                match self.is_collateral_below_threshold(
                                    v.backing_collateral,
                                    outs,
                                    self.params.secure_collateral_threshold,
                                ) {
                                    Ok(below) => !below,
                                    Err(_) => false,
                                }
                            }
                        },
                    }
                };
                if can_absorb {
                    let nf = self.get_issue_fee_from_total(payment.amount)?;
                    let na = match payment.amount.checked_sub(nf) {
                        Some(x) => x,
                        None => {
                            return Err(Error::ArithmeticUnderflow);
                        }
                    };
                    final_fee = nf;
                    final_amount = na;
                    final_total = payment.amount;
                    absorbed = true;
                }
            }
        }

        // all wBTC minted in one step: amount to the requester, fee to the
        // fee pool
        let pool = self.params.fee_pool_account_id;
        if issue.requester == pool {
            let tf = self.treasury.get_free(issue.requester);
            let s = match tf.checked_add(final_amount) {
                Some(x) => x,
                None => {
                    return Err(Error::ArithmeticOverflow);
                }
            };
            if s.checked_add(final_fee).is_none() {
                return Err(Error::ArithmeticOverflow);
            }
        } else {
            let tf = self.treasury.get_free(issue.requester);
            if tf.checked_add(final_amount).is_none() {
                return Err(Error::ArithmeticOverflow);
            }
            let pf = self.treasury.get_free(pool);
            if pf.checked_add(final_fee).is_none() {
                return Err(Error::ArithmeticOverflow);
            }
        }

        // commit phase: none of the following can fail
        if absorbed {
            let surplus = payment.amount - total;
            match self.try_increase_to_be_issued_tokens(issue.vault, surplus) {
                Ok(()) => {}
                Err(e) => {
                    proof {
                        assert(false);
                    }
                    return Err(e);
                }
            }
        }
        match self.issue_tokens(issue.vault, final_total) {
            Ok(()) => {}
            Err(e) => {
                proof {
                    assert(false);
                }
                return Err(e);
            }
        }
        let ghost s2 = *self;
        match self.release_collateral(issue.requester, issue.griefing_collateral) {
            Ok(()) => {}
            Err(e) => {
                proof {
                    assert(false);
                }
                return Err(e);
            }
        }
        let ghost s3 = *self;
        match self.mint_two(issue.requester, final_amount, pool, final_fee) {
            Ok(()) => {}
            Err(e) => {
                proof {
                    assert(false);
                }
                return Err(e);
            }
        }
        let ghost s4 = *self;
        self.put_issue(IssueRequest {
            amount: final_amount,
            fee: final_fee,
            completed: true,
            ..issue
        });
        proof {
            Bridge::lemma_same_collateral_views(*old(self), s2);
            Bridge::lemma_same_collateral_views(s3, *self);
            Bridge::lemma_same_treasury_views(*old(self), s3);
            Bridge::lemma_same_treasury_views(s4, *self);
            Bridge::lemma_same_issue_views(*old(self), s4);
            Bridge::lemma_same_vault_views(s2, *self);
            if matches!(v.status, VaultStatus::Liquidated) {
                Bridge::lemma_same_vault_views(*old(self), *self);
            }
        }
        let refund = if !liquidated && payment.amount > total && !absorbed {
            Some(RefundRequest {
                surplus: payment.amount - total,
                vault: issue.vault,
                requester: issue.requester,
                refund_address,
                issue_id,
            })
        } else {
            None
        };
        Ok(ExecuteIssueEvent {
            issue_id,
            requester: issue.requester,
            total_amount: final_total,
            vault_id: issue.vault,
            refund,
        })
    }

    /// Conditions under which `cancel_issue` succeeds.
    pub open spec fn spec_can_cancel_issue(self, issue_id: RequestId) -> bool {
        let issue = self.issue_of(issue_id);
        let full = issue.amount + issue.fee;
        let v = self.vault_of(issue.vault);
        let lv = self.liquidation_vault;
        &&& self.has_issue(issue_id)
        &&& issue.is_open()
        &&& issue.opentime + self.params.issue_period < self.current_height
        &&& full <= u128::MAX
        &&& self.has_vault(issue.vault)
        &&& (v.is_liquidated() ==> {
            &&& lv.to_be_issued_tokens >= full
            &&& lv.issued_tokens + lv.to_be_issued_tokens - full >= lv.to_be_redeemed_tokens
            &&& self.dot_locked(issue.requester) >= issue.griefing_collateral
            &&& self.dot_free(issue.requester) + issue.griefing_collateral <= u128::MAX
        })
        &&& (!v.is_liquidated() ==> {
            &&& v.to_be_issued_tokens >= full
            &&& self.dot_locked(issue.requester) >= issue.griefing_collateral
            &&& v.backing_collateral + issue.griefing_collateral <= u128::MAX
        })
    }

    /// The error kind `cancel_issue` reports for a failing input, in the
    /// order its checks run.
    pub open spec fn spec_cancel_issue_err(self, issue_id: RequestId) -> Error {
        let issue = self.issue_of(issue_id);
        let full = issue.amount + issue.fee;
        let v = self.vault_of(issue.vault);
        let lv = self.liquidation_vault;
        if !self.has_issue(issue_id) {
            Error::IssueIdNotFound
        } else if issue.completed {
            Error::IssueCompleted
        } else if issue.cancelled {
            Error::IssueCancelled
        } else if !(issue.opentime + self.params.issue_period < self.current_height) {
            Error::TimeNotExpired
        } else if full > u128::MAX {
            Error::ArithmeticOverflow
        } else if !self.has_vault(issue.vault) {
            Error::VaultNotFound
        } else if v.is_liquidated() {
            if lv.to_be_issued_tokens < full {
                Error::ArithmeticUnderflow
            } else if lv.issued_tokens + lv.to_be_issued_tokens - full
                < lv.to_be_redeemed_tokens {
                Error::ArithmeticUnderflow
            } else if self.dot_locked(issue.requester) < issue.griefing_collateral {
                Error::InsufficientFunds
            } else {
                // the remaining failing case is the requester's balance ceiling
                Error::ArithmeticOverflow
            }
        } else {
            if v.to_be_issued_tokens < full {
                Error::ArithmeticUnderflow
            } else if self.dot_locked(issue.requester) < issue.griefing_collateral {
                Error::InsufficientFunds
            } else {
                // the remaining failing case is the vault's backing ceiling
                Error::ArithmeticOverflow
            }
        }
    }

    /// Cancels an expired issue request: the vault's commitment is
    /// reversed, and the requester's griefing collateral is slashed to the
    /// vault's backing — or released back when the vault has been
    /// liquidated.
    pub fn cancel_issue(&mut self, requester: AccountId, issue_id: RequestId) -> (r: Result<
        CancelIssueEvent,
        Error,
    >)
        requires
            old(self).inv(),
        ensures
            final(self).inv(),
            r is Ok <==> old(self).spec_can_cancel_issue(issue_id),
            r matches Err(e) ==> *final(self) == *old(self) && e == old(
                self,
            ).spec_cancel_issue_err(issue_id),
            r matches Ok(ev) ==> {
                let issue = old(self).issue_of(issue_id);
                let full = issue.amount + issue.fee;
                let v = old(self).vault_of(issue.vault);
                let lv = old(self).liquidation_vault;
                let liq = v.is_liquidated();
                let g = issue.griefing_collateral;
                &&& ev == (CancelIssueEvent { issue_id, requester, griefing_collateral: g })
                &&& *final(self) == (Bridge {
                    vaults: final(self).vaults,
                    liquidation_vault: final(self).liquidation_vault,
                    collateral: final(self).collateral,
                    issue_requests: final(self).issue_requests,
                    ..*old(self)
                })
                &&& final(self).issue_of(issue_id) == (IssueRequest { cancelled: true, ..issue })
                &&& forall|x: RequestId| x != issue_id
                    ==> (final(self).has_issue(x) <==> old(self).has_issue(x))
                &&& forall|x: RequestId| x != issue_id && old(self).has_issue(x)
                    ==> final(self).issue_of(x) == old(self).issue_of(x)
                &&& (liq ==> {
                    &&& final(self).vaults@ == old(self).vaults@
                    &&& final(self).liquidation_vault == (SystemVault {
                        to_be_issued_tokens: (lv.to_be_issued_tokens - full) as u128,
                        ..lv
                    })
                    &&& final(self).dot_locked(issue.requester)
                        == old(self).dot_locked(issue.requester) - g
                    &&& final(self).dot_free(issue.requester)
                        == old(self).dot_free(issue.requester) + g
                    &&& forall|a: AccountId| a != issue.requester
                        ==> final(self).dot_free(a) == old(self).dot_free(a)
                            && final(self).dot_locked(a) == old(self).dot_locked(a)
                })
                &&& (!liq ==> {
                    &&& final(self).liquidation_vault == old(self).liquidation_vault
                    &&& final(self).vault_of(issue.vault) == (Vault {
                        to_be_issued_tokens: (v.to_be_issued_tokens - full) as u128,
                        backing_collateral: (v.backing_collateral + g) as u128,
                        ..v
                    })
                    &&& forall|x: AccountId| (final(self).has_vault(x)
                        <==> old(self).has_vault(x))
                    &&& forall|x: AccountId| x != issue.vault && old(self).has_vault(x)
                        ==> final(self).vault_of(x) == old(self).vault_of(x)
                    &&& final(self).dot_locked(issue.requester)
                        == old(self).dot_locked(issue.requester) - g
                    &&& forall|a: AccountId| a != issue.requester
                        ==> final(self).dot_locked(a) == old(self).dot_locked(a)
                    &&& forall|a: AccountId| final(self).dot_free(a) == old(self).dot_free(a)
                })
                &&& final(self).total_issued() == old(self).total_issued()
                &&& final(self).total_supply() == old(self).total_supply()
            },
    {
        let issue = self.get_issue_request_from_id(issue_id)?;
        if !self.has_request_expired(issue.opentime, self.params.issue_period) {
            return Err(Error::TimeNotExpired);
        }
        let full = match issue.amount.checked_add(issue.fee) {
            Some(x) => x,
            None => {
                return Err(Error::ArithmeticOverflow);
            }
        };
        let v = self.get_vault_from_id(issue.vault)?;
        let g = issue.griefing_collateral;
        if matches!(v.status, VaultStatus::Liquidated) {
            let lv = self.liquidation_vault;
            if lv.to_be_issued_tokens < full {
                return Err(Error::ArithmeticUnderflow);
            }
            let rem = lv.to_be_issued_tokens - full;
            if lv.to_be_redeemed_tokens > rem
                && lv.to_be_redeemed_tokens - rem > lv.issued_tokens {
                return Err(Error::ArithmeticUnderflow);
            }
            let dl = self.collateral.get_locked(issue.requester);
            if dl < g {
                return Err(Error::InsufficientFunds);
            }
            let df = self.collateral.get_free(issue.requester);
            if df.checked_add(g).is_none() {
                return Err(Error::ArithmeticOverflow);
            }
            match self.decrease_to_be_issued_tokens(issue.vault, full) {
                Ok(()) => {}
                Err(e) => {
                    proof {
                        assert(false);
                    }
                    return Err(e);
                }
            }
            let ghost sa = *self;
            match self.release_collateral(issue.requester, g) {
                Ok(()) => {}
                Err(e) => {
                    proof {
                        assert(false);
                    }
                    return Err(e);
                }
            }
            proof {
                Bridge::lemma_same_collateral_views(*old(self), sa);
                Bridge::lemma_same_vault_views(*old(self), *self);
            }
        } else {
            if v.to_be_issued_tokens < full {
                return Err(Error::ArithmeticUnderflow);
            }
            let dl = self.collateral.get_locked(issue.requester);
            if dl < g {
                return Err(Error::InsufficientFunds);
            }
            if v.backing_collateral.checked_add(g).is_none() {
                return Err(Error::ArithmeticOverflow);
            }
            match self.decrease_to_be_issued_tokens(issue.vault, full) {
                Ok(()) => {}
                Err(e) => {
                    proof {
                        assert(false);
                    }
                    return Err(e);
                }
            }
            let ghost sb = *self;
            match self.slash_collateral(
                CurrencySource::Griefing(issue.requester),
                CurrencySource::Backing(issue.vault),
                g,
            ) {
                Ok(()) => {}
                Err(e) => {
                    proof {
                        assert(false);
                    }
                    return Err(e);
                }
            }
            proof {
                Bridge::lemma_same_collateral_views(*old(self), sb);
            }
        }
        let ghost sp = *self;
        self.put_issue(IssueRequest { cancelled: true, ..issue });
        proof {
            Bridge::lemma_same_collateral_views(sp, *self);
            Bridge::lemma_same_vault_views(sp, *self);
            Bridge::lemma_same_issue_views(*old(self), sp);
            Bridge::lemma_same_treasury_views(*old(self), *self);
        }
        Ok(CancelIssueEvent { issue_id, requester, griefing_collateral: g })
    }
}

} // verus!
