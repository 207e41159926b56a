//! The bridge state: the vault registry, the liquidation vault, the DOT
//! collateral ledger, the wBTC treasury, the three request tables, and the
//! protocol parameters. Every public operation of the issue, redeem and
//! replace engines is a method on `Bridge`; each runs atomically — on any
//! error the state is exactly what it was.

use vstd::prelude::*;
use crate::errors::Error;
use crate::fixed_point::UnsignedFixedPoint;
use crate::ledger::Ledger;
use crate::table::{
    entry_of, find_by_key, has_key, index_of_key, keys_unique, lemma_entry_at, lemma_entry_push,
    lemma_entry_update, lemma_sum_push, lemma_sum_update, sum_by,
};
use crate::types::{
    AccountId, Amount, BlockNumber, IssueRequest, Origin, RedeemRequest, ReplaceRequest,
    RequestId, SystemVault, Vault,
};

verus! {

/// Protocol parameters: fee and griefing rates, the four collateralization
/// thresholds, deadline windows in blocks, dust floors, and the fee pool
/// account.
#[derive(Clone, Copy, Debug, PartialEq, Eq)]
pub struct Params {
    pub issue_fee: UnsignedFixedPoint,
    pub issue_griefing_collateral: UnsignedFixedPoint,
    pub redeem_fee: UnsignedFixedPoint,
    pub premium_redeem_fee: UnsignedFixedPoint,
    pub auction_redeem_fee: UnsignedFixedPoint,
    pub punishment_fee: UnsignedFixedPoint,
    pub replace_griefing_collateral: UnsignedFixedPoint,
    pub secure_collateral_threshold: UnsignedFixedPoint,
    pub auction_collateral_threshold: UnsignedFixedPoint,
    pub premium_redeem_threshold: UnsignedFixedPoint,
    pub liquidation_collateral_threshold: UnsignedFixedPoint,
    pub issue_period: BlockNumber,
    pub redeem_period: BlockNumber,
    pub replace_period: BlockNumber,
    pub punishment_delay: BlockNumber,
    pub replace_btc_dust_value: Amount,
    pub redeem_btc_dust_value: Amount,
    pub minimum_collateral_vault: Amount,
    pub fee_pool_account_id: AccountId,
}

impl Params {
    /// The default parameter set of the chain's genesis configuration.
    pub fn standard() -> (r: Self)
        ensures
            r == Params::spec_standard(),
    {
        Params {
            issue_fee: UnsignedFixedPoint { inner: 5_000_000_000_000_000 },
            issue_griefing_collateral: UnsignedFixedPoint { inner: 50_000_000_000_000 },
            redeem_fee: UnsignedFixedPoint { inner: 5_000_000_000_000_000 },
            premium_redeem_fee: UnsignedFixedPoint { inner: 50_000_000_000_000_000 },
            auction_redeem_fee: UnsignedFixedPoint { inner: 50_000_000_000_000_000 },
            punishment_fee: UnsignedFixedPoint { inner: 100_000_000_000_000_000 },
            replace_griefing_collateral: UnsignedFixedPoint { inner: 100_000_000_000_000_000 },
            secure_collateral_threshold: UnsignedFixedPoint { inner: 1_500_000_000_000_000_000 },
            auction_collateral_threshold: UnsignedFixedPoint { inner: 1_200_000_000_000_000_000 },
            premium_redeem_threshold: UnsignedFixedPoint { inner: 1_350_000_000_000_000_000 },
            liquidation_collateral_threshold: UnsignedFixedPoint {
                inner: 1_100_000_000_000_000_000,
            },
            issue_period: 10,
            redeem_period: 10,
            replace_period: 10,
            punishment_delay: 8,
            replace_btc_dust_value: 1,
            redeem_btc_dust_value: 1,
            minimum_collateral_vault: 0,
            fee_pool_account_id: 1000,
        }
    }

    pub open spec fn spec_standard() -> Params {
        Params {
            issue_fee: UnsignedFixedPoint { inner: 5_000_000_000_000_000 },
            issue_griefing_collateral: UnsignedFixedPoint { inner: 50_000_000_000_000 },
            redeem_fee: UnsignedFixedPoint { inner: 5_000_000_000_000_000 },
            premium_redeem_fee: UnsignedFixedPoint { inner: 50_000_000_000_000_000 },
            auction_redeem_fee: UnsignedFixedPoint { inner: 50_000_000_000_000_000 },
            punishment_fee: UnsignedFixedPoint { inner: 100_000_000_000_000_000 },
            replace_griefing_collateral: UnsignedFixedPoint { inner: 100_000_000_000_000_000 },
            secure_collateral_threshold: UnsignedFixedPoint { inner: 1_500_000_000_000_000_000 },
            auction_collateral_threshold: UnsignedFixedPoint { inner: 1_200_000_000_000_000_000 },
            premium_redeem_threshold: UnsignedFixedPoint { inner: 1_350_000_000_000_000_000 },
            liquidation_collateral_threshold: UnsignedFixedPoint {
                inner: 1_100_000_000_000_000_000,
            },
            issue_period: 10,
            redeem_period: 10,
            replace_period: 10,
            punishment_delay: 8,
            replace_btc_dust_value: 1,
            redeem_btc_dust_value: 1,
            minimum_collateral_vault: 0,
            fee_pool_account_id: 1000,
        }
    }
}

/// The weight a vault contributes to the issued-token total.
pub open spec fn issued_weight_fn() -> spec_fn(Vault) -> int {
    |v: Vault| v.issued_tokens as int
}

/// Builds a bridge in its genesis state, with the standard parameter set
/// unless reconfigured.
pub struct ExtBuilder {
    pub params: Params,
}

impl ExtBuilder {
    pub fn new() -> (r: Self)
        ensures
            r.params == Params::spec_standard(),
    {
        ExtBuilder { params: Params::standard() }
    }

    pub fn with_params(self, params: Params) -> (r: Self)
        ensures
            r.params == params,
    {
        ExtBuilder { params }
    }

    pub fn build(self) -> (r: Bridge)
        ensures
            r.inv(),
            r.params == self.params,
            r.exchange_rate.inner == crate::fixed_point::FIXED_POINT_DIV,
            r.current_height == 0,
            r.nonce == 0,
            r.running,
            r.vaults@.len() == 0,
            r.issue_requests@.len() == 0,
            r.redeem_requests@.len() == 0,
            r.replace_requests@.len() == 0,
            r.liquidation_vault == (SystemVault {
                to_be_issued_tokens: 0,
                issued_tokens: 0,
                to_be_redeemed_tokens: 0,
            }),
            r.liquidation_collateral == 0,
            forall|a: AccountId| r.dot_free(a) == 0 && r.dot_locked(a) == 0
                && r.tokens_free(a) == 0 && r.tokens_locked(a) == 0,
            r.supply_matches_issued(),
    {
        Bridge::new(self.params)
    }
}

#[derive(Debug)]
pub struct Bridge {
    pub vaults: Vec<Vault>,
    pub liquidation_vault: SystemVault,
    /// The liquidation vault's dedicated collateral bucket.
    pub liquidation_collateral: Amount,
    /// The DOT ledger: free balances and locked (griefing) collateral.
    pub collateral: Ledger,
    /// The wBTC ledger: free and locked token balances.
    pub treasury: Ledger,
    pub issue_requests: Vec<IssueRequest>,
    pub redeem_requests: Vec<RedeemRequest>,
    pub replace_requests: Vec<ReplaceRequest>,
    pub params: Params,
    /// DOT per wBTC unit, as the oracle last reported it.
    pub exchange_rate: UnsignedFixedPoint,
    pub current_height: BlockNumber,
    /// Source of fresh request ids.
    pub nonce: u64,
    /// Whether the host chain reports itself as running.
    pub running: bool,
}

impl Bridge {
    // ----- views ---------------------------------------------------------

    pub open spec fn has_vault(self, id: AccountId) -> bool {
        has_key(self.vaults@, id)
    }

    pub open spec fn vault_of(self, id: AccountId) -> Vault {
        entry_of(self.vaults@, id)
    }

    pub open spec fn has_issue(self, id: RequestId) -> bool {
        has_key(self.issue_requests@, id)
    }

    pub open spec fn issue_of(self, id: RequestId) -> IssueRequest {
        entry_of(self.issue_requests@, id)
    }

    pub open spec fn has_redeem(self, id: RequestId) -> bool {
        has_key(self.redeem_requests@, id)
    }

    pub open spec fn redeem_of(self, id: RequestId) -> RedeemRequest {
        entry_of(self.redeem_requests@, id)
    }

    pub open spec fn has_replace(self, id: RequestId) -> bool {
        has_key(self.replace_requests@, id)
    }

    pub open spec fn replace_of(self, id: RequestId) -> ReplaceRequest {
        entry_of(self.replace_requests@, id)
    }

    pub open spec fn dot_free(self, a: AccountId) -> Amount {
        self.collateral.free_of(a)
    }

    pub open spec fn dot_locked(self, a: AccountId) -> Amount {
        self.collateral.locked_of(a)
    }

    pub open spec fn tokens_free(self, a: AccountId) -> Amount {
        self.treasury.free_of(a)
    }

    pub open spec fn tokens_locked(self, a: AccountId) -> Amount {
        self.treasury.locked_of(a)
    }

    /// Total wBTC in existence: free plus locked over all accounts.
    pub open spec fn total_supply(self) -> int {
        self.treasury.total()
    }

    /// The issued column of the registry plus the liquidation vault's.
    pub open spec fn total_issued(self) -> int {
        sum_by(self.vaults@, issued_weight_fn()) + self.liquidation_vault.issued_tokens
    }

    /// Total wBTC supply equals total issued tokens: the treasury mints and
    /// burns in lockstep with the registry.
    pub open spec fn supply_matches_issued(self) -> bool {
        self.total_supply() == self.total_issued()
    }

    // ----- well-formedness ------------------------------------------------

    pub open spec fn inv(self) -> bool {
        &&& keys_unique(self.vaults@)
        &&& keys_unique(self.issue_requests@)
        &&& keys_unique(self.redeem_requests@)
        &&& keys_unique(self.replace_requests@)
        &&& self.collateral.wf()
        &&& self.treasury.wf()
        &&& forall|i: int| 0 <= i < self.vaults@.len()
            ==> (#[trigger] self.vaults@[i]).counters_ok()
        &&& self.liquidation_vault.counters_ok()
        &&& forall|i: int| 0 <= i < self.issue_requests@.len()
            ==> (#[trigger] self.issue_requests@[i]).id < self.nonce
        &&& forall|i: int| 0 <= i < self.redeem_requests@.len()
            ==> (#[trigger] self.redeem_requests@[i]).id < self.nonce
        &&& forall|i: int| 0 <= i < self.replace_requests@.len()
            ==> (#[trigger] self.replace_requests@[i]).id < self.nonce
    }

    /// Every registered vault satisfies the counter invariant:
    /// `to_be_redeemed <= issued` and
    /// `to_be_replaced <= issued - to_be_redeemed`.
    pub proof fn lemma_vault_counters_ok(self, id: AccountId)
        requires
            self.inv(),
            self.has_vault(id),
        ensures
            self.vault_of(id).counters_ok(),
    {
        let i = index_of_key(self.vaults@, id);
        assert(0 <= i < self.vaults@.len() && self.vaults@[i].id == id);
    }

    // ----- view congruence ------------------------------------------------
    // Each view depends on one field; these lemmas make that explicit, so
    // that a caller can bridge views across a step that left the field
    // untouched.

    pub proof fn lemma_same_collateral_views(a: Bridge, b: Bridge)
        requires
            a.collateral == b.collateral,
        ensures
            forall|x: AccountId| #[trigger] a.dot_free(x) == b.dot_free(x),
            forall|x: AccountId| #[trigger] a.dot_locked(x) == b.dot_locked(x),
    {
    }

    pub proof fn lemma_same_treasury_views(a: Bridge, b: Bridge)
        requires
            a.treasury == b.treasury,
        ensures
            forall|x: AccountId| #[trigger] a.tokens_free(x) == b.tokens_free(x),
            forall|x: AccountId| #[trigger] a.tokens_locked(x) == b.tokens_locked(x),
            a.total_supply() == b.total_supply(),
    {
    }

    pub proof fn lemma_same_vault_views(a: Bridge, b: Bridge)
        requires
            a.vaults@ == b.vaults@,
        ensures
            forall|x: AccountId| #[trigger] a.has_vault(x) <==> b.has_vault(x),
            forall|x: AccountId| #[trigger] a.vault_of(x) == b.vault_of(x),
    {
    }

    pub proof fn lemma_same_issue_views(a: Bridge, b: Bridge)
        requires
            a.issue_requests@ == b.issue_requests@,
        ensures
            forall|x: RequestId| #[trigger] a.has_issue(x) <==> b.has_issue(x),
            forall|x: RequestId| #[trigger] a.issue_of(x) == b.issue_of(x),
    {
    }

    pub proof fn lemma_same_redeem_views(a: Bridge, b: Bridge)
        requires
            a.redeem_requests@ == b.redeem_requests@,
        ensures
            forall|x: RequestId| #[trigger] a.has_redeem(x) <==> b.has_redeem(x),
            forall|x: RequestId| #[trigger] a.redeem_of(x) == b.redeem_of(x),
    {
    }

    pub proof fn lemma_same_replace_views(a: Bridge, b: Bridge)
        requires
            a.replace_requests@ == b.replace_requests@,
        ensures
            forall|x: RequestId| #[trigger] a.has_replace(x) <==> b.has_replace(x),
            forall|x: RequestId| #[trigger] a.replace_of(x) == b.replace_of(x),
    {
    }

    // ----- construction ---------------------------------------------------

    /// A fresh bridge: no vaults, no requests, empty ledgers, height zero,
    /// exchange rate one, parachain running.
    pub fn new(params: Params) -> (r: Bridge)
        ensures
            r.inv(),
            r.params == params,
            r.exchange_rate.inner == crate::fixed_point::FIXED_POINT_DIV,
            r.current_height == 0,
            r.nonce == 0,
            r.running,
            r.vaults@.len() == 0,
            r.issue_requests@.len() == 0,
            r.redeem_requests@.len() == 0,
            r.replace_requests@.len() == 0,
            r.liquidation_vault == (SystemVault {
                to_be_issued_tokens: 0,
                issued_tokens: 0,
                to_be_redeemed_tokens: 0,
            }),
            r.liquidation_collateral == 0,
            forall|a: AccountId| r.dot_free(a) == 0 && r.dot_locked(a) == 0
                && r.tokens_free(a) == 0 && r.tokens_locked(a) == 0,
            r.total_supply() == 0,
            r.total_issued() == 0,
            r.supply_matches_issued(),
    {
        Bridge {
            vaults: Vec::new(),
            liquidation_vault: SystemVault {
                to_be_issued_tokens: 0,
                issued_tokens: 0,
                to_be_redeemed_tokens: 0,
            },
            liquidation_collateral: 0,
            collateral: Ledger::new(),
            treasury: Ledger::new(),
            issue_requests: Vec::new(),
            redeem_requests: Vec::new(),
            replace_requests: Vec::new(),
            params,
            exchange_rate: UnsignedFixedPoint::one(),
            current_height: 0,
            nonce: 0,
            running: true,
        }
    }

    // ----- vault lookup and commit ---------------------------------------

    pub fn get_vault_from_id(&self, vault_id: AccountId) -> (r: Result<Vault, Error>)
        requires
            self.inv(),
        ensures
            match r {
                Ok(v) => self.has_vault(vault_id) && v == self.vault_of(vault_id),
                Err(e) => e == Error::VaultNotFound && !self.has_vault(vault_id),
            },
    {
        match find_by_key(&self.vaults, vault_id) {
            Some(i) => {
                proof {
                    lemma_entry_at(self.vaults@, i as int);
                }
                Ok(self.vaults[i])
            }
            None => Err(Error::VaultNotFound),
        }
    }

    /// The vault, required to be in the `Active` state.
    pub fn get_active_vault_from_id(&self, vault_id: AccountId) -> (r: Result<Vault, Error>)
        requires
            self.inv(),
        ensures
            match r {
                Ok(v) => self.has_vault(vault_id) && v == self.vault_of(vault_id)
                    && v.status is Active,
                Err(e) => e == Error::VaultNotFound && (!self.has_vault(vault_id)
                    || !(self.vault_of(vault_id).status is Active)),
            },
    {
        let v = self.get_vault_from_id(vault_id)?;
        if matches!(v.status, crate::types::VaultStatus::Active) {
            Ok(v)
        } else {
            Err(Error::VaultNotFound)
        }
    }

    /// Overwrites the record of a registered vault. Infallible; the caller
    /// has validated the new record.
    pub fn put_vault(&mut self, v: Vault)
        requires
            old(self).inv(),
            old(self).has_vault(v.id),
            v.counters_ok(),
        ensures
            final(self).inv(),
            *final(self) == (Bridge { vaults: final(self).vaults, ..*old(self) }),
            final(self).vaults@.len() == old(self).vaults@.len(),
            final(self).has_vault(v.id),
            final(self).vault_of(v.id) == v,
            forall|x: AccountId| x != v.id
                ==> (final(self).has_vault(x) <==> old(self).has_vault(x)),
            forall|x: AccountId| x != v.id && old(self).has_vault(x)
                ==> final(self).vault_of(x) == old(self).vault_of(x),
            final(self).total_issued() == old(self).total_issued()
                - old(self).vault_of(v.id).issued_tokens + v.issued_tokens,
    {
        let ghost s0 = self.vaults@;
        let i = match find_by_key(&self.vaults, v.id) {
            Some(i) => i,
            None => {
                proof {
                    assert(false);
                }
                0
            }
        };
        self.vaults[i] = v;
        proof {
            lemma_entry_at(s0, i as int);
            lemma_entry_update(s0, i as int, v);
            lemma_sum_update(s0, i as int, v, issued_weight_fn());
        }
    }

    /// Registers a record for a vault id not seen before.
    pub fn push_vault(&mut self, v: Vault)
        requires
            old(self).inv(),
            !old(self).has_vault(v.id),
            v.counters_ok(),
        ensures
            final(self).inv(),
            *final(self) == (Bridge { vaults: final(self).vaults, ..*old(self) }),
            final(self).has_vault(v.id),
            final(self).vault_of(v.id) == v,
            forall|x: AccountId| x != v.id
                ==> (final(self).has_vault(x) <==> old(self).has_vault(x)),
            forall|x: AccountId| x != v.id && old(self).has_vault(x)
                ==> final(self).vault_of(x) == old(self).vault_of(x),
            final(self).total_issued() == old(self).total_issued() + v.issued_tokens,
    {
        let ghost s0 = self.vaults@;
        self.vaults.push(v);
        proof {
            lemma_entry_push(s0, v);
            lemma_sum_push(s0, v, issued_weight_fn());
        }
    }

    // ----- request table lookups and commits ------------------------------

    /// The issue request, required to be open: not yet completed and not
    /// yet cancelled.
    pub fn get_issue_request_from_id(&self, issue_id: RequestId) -> (r: Result<
        IssueRequest,
        Error,
    >)
        requires
            self.inv(),
        ensures
            match r {
                Ok(req) => self.has_issue(issue_id) && req == self.issue_of(issue_id)
                    && req.is_open(),
                Err(e) => {
                    ||| (e == Error::IssueIdNotFound && !self.has_issue(issue_id))
                    ||| (e == Error::IssueCompleted && self.has_issue(issue_id)
                        && self.issue_of(issue_id).completed)
                    ||| (e == Error::IssueCancelled && self.has_issue(issue_id)
                        && !self.issue_of(issue_id).completed && self.issue_of(issue_id).cancelled)
                },
            },
    {
        match find_by_key(&self.issue_requests, issue_id) {
            Some(i) => {
                proof {
                    lemma_entry_at(self.issue_requests@, i as int);
                }
                let req = self.issue_requests[i];
                if req.completed {
                    Err(Error::IssueCompleted)
                } else if req.cancelled {
                    Err(Error::IssueCancelled)
                } else {
                    Ok(req)
                }
            }
            None => Err(Error::IssueIdNotFound),
        }
    }

    pub fn put_issue(&mut self, req: IssueRequest)
        requires
            old(self).inv(),
            old(self).has_issue(req.id),
        ensures
            final(self).inv(),
            *final(self) == (Bridge { issue_requests: final(self).issue_requests, ..*old(self) }),
            final(self).has_issue(req.id),
            final(self).issue_of(req.id) == req,
            forall|x: RequestId| x != req.id
                ==> (final(self).has_issue(x) <==> old(self).has_issue(x)),
            forall|x: RequestId| x != req.id && old(self).has_issue(x)
                ==> final(self).issue_of(x) == old(self).issue_of(x),
    {
        let ghost s0 = self.issue_requests@;
        let i = match find_by_key(&self.issue_requests, req.id) {
            Some(i) => i,
            None => {
                proof {
                    assert(false);
                }
                0
            }
        };
        self.issue_requests[i] = req;
        proof {
            lemma_entry_at(s0, i as int);
            lemma_entry_update(s0, i as int, req);
        }
    }

    pub fn push_issue(&mut self, req: IssueRequest)
        requires
            old(self).inv(),
            !old(self).has_issue(req.id),
            req.id < old(self).nonce,
        ensures
            final(self).inv(),
            *final(self) == (Bridge { issue_requests: final(self).issue_requests, ..*old(self) }),
            final(self).has_issue(req.id),
            final(self).issue_of(req.id) == req,
            forall|x: RequestId| x != req.id
                ==> (final(self).has_issue(x) <==> old(self).has_issue(x)),
            forall|x: RequestId| x != req.id && old(self).has_issue(x)
                ==> final(self).issue_of(x) == old(self).issue_of(x),
    {
        let ghost s0 = self.issue_requests@;
        self.issue_requests.push(req);
        proof {
            lemma_entry_push(s0, req);
        }
    }

    /// The redeem request, required to be open.
    pub fn get_open_redeem_request_from_id(&self, redeem_id: RequestId) -> (r: Result<
        RedeemRequest,
        Error,
    >)
        requires
            self.inv(),
        ensures
            match r {
                Ok(req) => self.has_redeem(redeem_id) && req == self.redeem_of(redeem_id)
                    && req.is_open(),
                Err(e) => {
                    ||| (e == Error::RedeemIdNotFound && !self.has_redeem(redeem_id))
                    ||| (e == Error::RedeemCompleted && self.has_redeem(redeem_id)
                        && self.redeem_of(redeem_id).completed)
                    ||| (e == Error::RedeemCancelled && self.has_redeem(redeem_id)
                        && !self.redeem_of(redeem_id).completed
                        && self.redeem_of(redeem_id).cancelled)
                },
            },
    {
        match find_by_key(&self.redeem_requests, redeem_id) {
            Some(i) => {
                proof {
                    lemma_entry_at(self.redeem_requests@, i as int);
                }
                let req = self.redeem_requests[i];
                if req.completed {
                    Err(Error::RedeemCompleted)
                } else if req.cancelled {
                    Err(Error::RedeemCancelled)
                } else {
                    Ok(req)
                }
            }
            None => Err(Error::RedeemIdNotFound),
        }
    }

    pub fn put_redeem(&mut self, req: RedeemRequest)
        requires
            old(self).inv(),
            old(self).has_redeem(req.id),
        ensures
            final(self).inv(),
            *final(self) == (Bridge { redeem_requests: final(self).redeem_requests, ..*old(self) }),
            final(self).has_redeem(req.id),
            final(self).redeem_of(req.id) == req,
            forall|x: RequestId| x != req.id
                ==> (final(self).has_redeem(x) <==> old(self).has_redeem(x)),
            forall|x: RequestId| x != req.id && old(self).has_redeem(x)
                ==> final(self).redeem_of(x) == old(self).redeem_of(x),
    {
        let ghost s0 = self.redeem_requests@;
        let i = match find_by_key(&self.redeem_requests, req.id) {
            Some(i) => i,
            None => {
                proof {
                    assert(false);
                }
                0
            }
        };
        self.redeem_requests[i] = req;
        proof {
            lemma_entry_at(s0, i as int);
            lemma_entry_update(s0, i as int, req);
        }
    }

    pub fn push_redeem(&mut self, req: RedeemRequest)
        requires
            old(self).inv(),
            !old(self).has_redeem(req.id),
            req.id < old(self).nonce,
        ensures
            final(self).inv(),
            *final(self) == (Bridge { redeem_requests: final(self).redeem_requests, ..*old(self) }),
            final(self).has_redeem(req.id),
            final(self).redeem_of(req.id) == req,
            forall|x: RequestId| x != req.id
                ==> (final(self).has_redeem(x) <==> old(self).has_redeem(x)),
            forall|x: RequestId| x != req.id && old(self).has_redeem(x)
                ==> final(self).redeem_of(x) == old(self).redeem_of(x),
    {
        let ghost s0 = self.redeem_requests@;
        self.redeem_requests.push(req);
        proof {
            lemma_entry_push(s0, req);
        }
    }

    /// The replace request, required to be open.
    pub fn get_open_replace_request(&self, replace_id: RequestId) -> (r: Result<
        ReplaceRequest,
        Error,
    >)
        requires
            self.inv(),
        ensures
            match r {
                Ok(req) => self.has_replace(replace_id) && req == self.replace_of(replace_id)
                    && req.is_open(),
                Err(e) => {
                    ||| (e == Error::ReplaceIdNotFound && !self.has_replace(replace_id))
                    ||| (e == Error::ReplaceCompleted && self.has_replace(replace_id)
                        && self.replace_of(replace_id).completed)
                    ||| (e == Error::ReplaceCancelled && self.has_replace(replace_id)
                        && !self.replace_of(replace_id).completed
                        && self.replace_of(replace_id).cancelled)
                },
            },
    {
        match find_by_key(&self.replace_requests, replace_id) {
            Some(i) => {
                proof {
                    lemma_entry_at(self.replace_requests@, i as int);
                }
                let req = self.replace_requests[i];
                if req.completed {
                    Err(Error::ReplaceCompleted)
                } else if req.cancelled {
                    Err(Error::ReplaceCancelled)
                } else {
                    Ok(req)
                }
            }
            None => Err(Error::ReplaceIdNotFound),
        }
    }

    pub fn put_replace(&mut self, req: ReplaceRequest)
        requires
            old(self).inv(),
            old(self).has_replace(req.id),
        ensures
            final(self).inv(),
            *final(self) == (Bridge {
                replace_requests: final(self).replace_requests,
                ..*old(self)
            }),
            final(self).has_replace(req.id),
            final(self).replace_of(req.id) == req,
            forall|x: RequestId| x != req.id
                ==> (final(self).has_replace(x) <==> old(self).has_replace(x)),
            forall|x: RequestId| x != req.id && old(self).has_replace(x)
                ==> final(self).replace_of(x) == old(self).replace_of(x),
    {
        let ghost s0 = self.replace_requests@;
        let i = match find_by_key(&self.replace_requests, req.id) {
            Some(i) => i,
            None => {
                proof {
                    assert(false);
                }
                0
            }
        };
        self.replace_requests[i] = req;
        proof {
            lemma_entry_at(s0, i as int);
            lemma_entry_update(s0, i as int, req);
        }
    }

    pub fn push_replace(&mut self, req: ReplaceRequest)
        requires
            old(self).inv(),
            !old(self).has_replace(req.id),
            req.id < old(self).nonce,
        ensures
            final(self).inv(),
            *final(self) == (Bridge {
                replace_requests: final(self).replace_requests,
                ..*old(self)
            }),
            final(self).has_replace(req.id),
            final(self).replace_of(req.id) == req,
            forall|x: RequestId| x != req.id
                ==> (final(self).has_replace(x) <==> old(self).has_replace(x)),
            forall|x: RequestId| x != req.id && old(self).has_replace(x)
                ==> final(self).replace_of(x) == old(self).replace_of(x),
    {
        let ghost s0 = self.replace_requests@;
        self.replace_requests.push(req);
        proof {
            lemma_entry_push(s0, req);
        }
    }

    // ----- host configuration ---------------------------------------------

    pub fn set_block_number(&mut self, height: BlockNumber)
        requires
            old(self).inv(),
        ensures
            final(self).inv(),
            *final(self) == (Bridge { current_height: height, ..*old(self) }),
    {
        self.current_height = height;
    }

    pub fn set_exchange_rate(&mut self, rate: UnsignedFixedPoint)
        requires
            old(self).inv(),
        ensures
            final(self).inv(),
            *final(self) == (Bridge { exchange_rate: rate, ..*old(self) }),
    {
        self.exchange_rate = rate;
    }

    pub fn set_parachain_running(&mut self, running: bool)
        requires
            old(self).inv(),
        ensures
            final(self).inv(),
            *final(self) == (Bridge { running, ..*old(self) }),
    {
        self.running = running;
    }

    pub fn set_issue_period(&mut self, origin: Origin, period: BlockNumber) -> (r: Result<
        (),
        Error,
    >)
        requires
            old(self).inv(),
        ensures
            final(self).inv(),
            match r {
                Ok(()) => origin is Root && *final(self) == (Bridge {
                    params: (Params { issue_period: period, ..old(self).params }),
                    ..*old(self)
                }),
                Err(e) => e == Error::BadOrigin && !(origin is Root)
                    && *final(self) == *old(self),
            },
    {
        match origin {
            Origin::Root => {
                self.params.issue_period = period;
                Ok(())
            }
            Origin::Signed(_) => Err(Error::BadOrigin),
        }
    }

    pub fn set_redeem_period(&mut self, origin: Origin, period: BlockNumber) -> (r: Result<
        (),
        Error,
    >)
        requires
            old(self).inv(),
        ensures
            final(self).inv(),
            match r {
                Ok(()) => origin is Root && *final(self) == (Bridge {
                    params: (Params { redeem_period: period, ..old(self).params }),
                    ..*old(self)
                }),
                Err(e) => e == Error::BadOrigin && !(origin is Root)
                    && *final(self) == *old(self),
            },
    {
        match origin {
            Origin::Root => {
                self.params.redeem_period = period;
                Ok(())
            }
            Origin::Signed(_) => Err(Error::BadOrigin),
        }
    }

    pub fn set_replace_period(&mut self, origin: Origin, period: BlockNumber) -> (r: Result<
        (),
        Error,
    >)
        requires
            old(self).inv(),
        ensures
            final(self).inv(),
            match r {
                Ok(()) => origin is Root && *final(self) == (Bridge {
                    params: (Params { replace_period: period, ..old(self).params }),
                    ..*old(self)
                }),
                Err(e) => e == Error::BadOrigin && !(origin is Root)
                    && *final(self) == *old(self),
            },
    {
        match origin {
            Origin::Root => {
                self.params.replace_period = period;
                Ok(())
            }
            Origin::Signed(_) => Err(Error::BadOrigin),
        }
    }

    // ----- security and time ---------------------------------------------

    pub fn ensure_parachain_status_running(&self) -> (r: Result<(), Error>)
        ensures
            match r {
                Ok(()) => self.running,
                Err(e) => e == Error::ParachainNotRunning && !self.running,
            },
    {
        if self.running {
            Ok(())
        } else {
            Err(Error::ParachainNotRunning)
        }
    }

    /// Whether a deadline window starting at `opentime` has passed: strict,
    /// so at exactly `opentime + period` the request has not yet expired.
    pub fn has_request_expired(&self, opentime: BlockNumber, period: BlockNumber) -> (r: bool)
        ensures
            r == (opentime + period < self.current_height),
    {
        match opentime.checked_add(period) {
            Some(deadline) => self.current_height > deadline,
            None => false,
        }
    }

    /// A banned vault refuses new obligations until its ban height has
    /// passed.
    pub fn ensure_not_banned(&self, vault_id: AccountId) -> (r: Result<(), Error>)
        requires
            self.inv(),
        ensures
            match r {
                Ok(()) => self.has_vault(vault_id)
                    && !self.vault_of(vault_id).is_banned_at(self.current_height),
                Err(e) => {
                    ||| (e == Error::VaultNotFound && !self.has_vault(vault_id))
                    ||| (e == Error::VaultBanned && self.has_vault(vault_id)
                        && self.vault_of(vault_id).is_banned_at(self.current_height))
                },
            },
    {
        let v = self.get_vault_from_id(vault_id)?;
        match v.banned_until {
            Some(until) => {
                if self.current_height <= until {
                    Err(Error::VaultBanned)
                } else {
                    Ok(())
                }
            }
            None => Ok(()),
        }
    }

    /// Draws the next fresh request id.
    pub fn get_secure_id(&mut self) -> (r: Result<RequestId, Error>)
        requires
            old(self).inv(),
        ensures
            final(self).inv(),
            match r {
                Ok(id) => old(self).nonce < u64::MAX && id == old(self).nonce
                    && *final(self) == (Bridge { nonce: (old(self).nonce + 1) as u64, ..*old(self) }),
                Err(e) => e == Error::ArithmeticOverflow && old(self).nonce == u64::MAX
                    && *final(self) == *old(self),
            },
    {
        match self.nonce.checked_add(1) {
            Some(next) => {
                let id = self.nonce;
                self.nonce = next;
                Ok(id)
            }
            None => Err(Error::ArithmeticOverflow),
        }
    }
}

} // verus!
