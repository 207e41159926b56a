//! The bridge's global laws, stated and proved over the same spec functions
//! and views that the operations' contracts use. Conservation of issued
//! tokens against the wBTC supply, the per-vault counter invariant, and the
//! round-trip properties of the issue, redeem and replace workflows.

use vstd::prelude::*;
use crate::bridge::{issued_weight_fn, Bridge};
use crate::ledger::balance_weight_fn;
use crate::table::lemma_sum_nonneg;
use crate::types::{AccountId, Amount, BtcPayment, CurrencySource, RequestId, Vault};

verus! {

/// Every registered vault keeps `to_be_redeemed <= issued` and
/// `to_be_replaced <= issued - to_be_redeemed`: the well-formedness every
/// operation preserves.
pub proof fn lemma_vault_counter_invariant(b: Bridge, vault_id: AccountId)
    requires
        b.inv(),
        b.has_vault(vault_id),
    ensures
        b.vault_of(vault_id).to_be_redeemed_tokens <= b.vault_of(vault_id).issued_tokens,
        b.vault_of(vault_id).to_be_replaced_tokens
            <= b.vault_of(vault_id).issued_tokens - b.vault_of(vault_id).to_be_redeemed_tokens,
{
    b.lemma_vault_counters_ok(vault_id);
}

/// Counters and collateral buckets can never go negative: every balance
/// view of the bridge, and both global totals, are at least zero.
pub proof fn lemma_balances_nonnegative(b: Bridge, s: CurrencySource)
    ensures
        b.source_balance(s) >= 0,
        b.total_supply() >= 0,
        b.total_issued() >= 0,
{
    lemma_sum_nonneg(b.treasury.accounts@, balance_weight_fn());
    lemma_sum_nonneg(b.vaults@, issued_weight_fn());
}

/// An overpaid issue execution takes exactly one of two paths: the vault
/// absorbs the surplus — the request is rewritten to the full amount paid —
/// or the surplus goes to the refund module and the request keeps its
/// amounts; never both, never neither. `execute_issue` reports a refund
/// request exactly in the second case.
pub proof fn lemma_overpayment_absorbed_xor_refunded(
    b: Bridge,
    issue_id: RequestId,
    payment: BtcPayment,
)
    requires
        b.has_issue(issue_id),
        payment.amount > b.issue_of(issue_id).amount + b.issue_of(issue_id).fee,
    ensures
        b.spec_issue_overpay_absorbed(issue_id, payment)
            ==> b.spec_issue_final_total(issue_id, payment) == payment.amount,
        !b.spec_issue_overpay_absorbed(issue_id, payment)
            ==> b.spec_issue_final_total(issue_id, payment)
                == b.issue_of(issue_id).amount + b.issue_of(issue_id).fee,
{
}

/// Issue round trip: opening an issue request and cancelling it after
/// expiry (vault still active) returns the vault's token counters to their
/// prior values; the requester has lost exactly the griefing collateral,
/// which now backs the vault.
///
/// The hypotheses are the vault and balance clauses of `request_issue` and
/// `cancel_issue`'s contracts, with `total` the amount plus fee of the
/// request and `g` its griefing collateral.
pub proof fn lemma_issue_cancel_round_trip(
    v0: Vault,
    v1: Vault,
    v2: Vault,
    total: Amount,
    g: Amount,
    free0: Amount,
    locked0: Amount,
    free1: Amount,
    locked1: Amount,
    free2: Amount,
    locked2: Amount,
)
    requires
        // after request_issue
        v1 == (Vault { to_be_issued_tokens: (v0.to_be_issued_tokens + total) as u128, ..v0 }),
        v0.to_be_issued_tokens + total <= u128::MAX,
        free1 == free0 - g,
        locked1 == locked0 + g,
        free0 >= g,
        locked0 + g <= u128::MAX,
        // after cancel_issue on the active vault
        v2 == (Vault {
            to_be_issued_tokens: (v1.to_be_issued_tokens - total) as u128,
            backing_collateral: (v1.backing_collateral + g) as u128,
            ..v1
        }),
        v1.backing_collateral + g <= u128::MAX,
        free2 == free1,
        locked2 == locked1 - g,
    ensures
        v2.to_be_issued_tokens == v0.to_be_issued_tokens,
        v2.issued_tokens == v0.issued_tokens,
        v2.to_be_redeemed_tokens == v0.to_be_redeemed_tokens,
        v2.to_be_replaced_tokens == v0.to_be_replaced_tokens,
        v2.backing_collateral == v0.backing_collateral + g,
        free0 - free2 == g,
        locked2 == locked0,
{
}

/// Issue then execute with exact payment: the requester's wBTC grows by the
/// requested amount, the fee pool's by the fee, the vault's issued tokens
/// by amount plus fee, and the griefing collateral is back where it
/// started.
///
/// The hypotheses are the clauses of `request_issue` and `execute_issue`'s
/// contracts for a payment of exactly `amount + fee` (no overpayment, so
/// the final amounts equal the requested ones).
pub proof fn lemma_issue_execute_round_trip(
    v0: Vault,
    v1: Vault,
    v2: Vault,
    amount: Amount,
    fee: Amount,
    g: Amount,
    user_tokens0: Amount,
    user_tokens2: Amount,
    pool_tokens0: Amount,
    pool_tokens2: Amount,
    locked0: Amount,
    locked1: Amount,
    locked2: Amount,
)
    requires
        amount + fee <= u128::MAX,
        // after request_issue
        v1 == (Vault {
            to_be_issued_tokens: (v0.to_be_issued_tokens + amount + fee) as u128,
            ..v0
        }),
        v0.to_be_issued_tokens + amount + fee <= u128::MAX,
        locked1 == locked0 + g,
        locked0 + g <= u128::MAX,
        // after execute_issue with payment.amount == amount + fee
        v2 == (Vault {
            to_be_issued_tokens: (v1.to_be_issued_tokens - (amount + fee)) as u128,
            issued_tokens: (v1.issued_tokens + (amount + fee)) as u128,
            ..v1
        }),
        v1.issued_tokens + amount + fee <= u128::MAX,
        user_tokens2 == user_tokens0 + amount,
        pool_tokens2 == pool_tokens0 + fee,
        locked2 == locked1 - g,
    ensures
        v2.issued_tokens == v0.issued_tokens + amount + fee,
        v2.to_be_issued_tokens == v0.to_be_issued_tokens,
        user_tokens2 - user_tokens0 == amount,
        pool_tokens2 - pool_tokens0 == fee,
        locked2 == locked0,
{
}

/// Redeem then cancel with reimbursement on an active vault: the redeemer
/// ends up with the DOT value of the redeemed amount plus the punishment
/// fee, and has given up the redeemed amount of wBTC (the fee comes back);
/// the vault's issued tokens fall by the redeemed amount, as conservation
/// of the supply requires.
///
/// The hypotheses are the balance and vault clauses of `request_redeem`
/// and `cancel_redeem` with `reimburse` set, where `amount` is the full
/// requested amount, `ab = amount - fee` the amount the vault had to send,
/// `value` its DOT value and `p` the punishment fee.
pub proof fn lemma_redeem_cancel_reimburse_round_trip(
    v0: Vault,
    v1: Vault,
    v2: Vault,
    amount: Amount,
    ab: Amount,
    fee: Amount,
    value: Amount,
    p: Amount,
    dot0: Amount,
    dot2: Amount,
    tok_free0: Amount,
    tok_free1: Amount,
    tok_free2: Amount,
    tok_locked0: Amount,
    tok_locked1: Amount,
    tok_locked2: Amount,
)
    requires
        ab == amount - fee,
        fee <= amount,
        // after request_redeem (no premium, active vault, no clamping of
        // to_be_replaced needed)
        v1 == (Vault {
            to_be_redeemed_tokens: (v0.to_be_redeemed_tokens + ab) as u128,
            ..v0
        }),
        v0.to_be_redeemed_tokens + ab <= u128::MAX,
        tok_free1 == tok_free0 - amount,
        tok_locked1 == tok_locked0 + amount,
        tok_free0 >= amount,
        tok_locked0 + amount <= u128::MAX,
        // after cancel_redeem with reimburse
        v2.issued_tokens == v1.issued_tokens - ab,
        v2.to_be_redeemed_tokens == v1.to_be_redeemed_tokens - ab,
        v2.backing_collateral == v1.backing_collateral - p - value,
        v2.to_be_issued_tokens == v1.to_be_issued_tokens,
        v2.to_be_replaced_tokens == v1.to_be_replaced_tokens,
        v1.issued_tokens >= ab,
        v1.to_be_redeemed_tokens >= ab,
        v1.backing_collateral >= p + value,
        dot2 == dot0 + p + value,
        dot0 + p + value <= u128::MAX,
        tok_locked2 == tok_locked1 - amount,
        tok_free2 == tok_free1 + fee,
    ensures
        dot2 - dot0 == value + p,
        tok_free0 - tok_free2 == ab,
        tok_locked2 == tok_locked0,
        v2.issued_tokens == v0.issued_tokens - ab,
        v2.to_be_redeemed_tokens == v0.to_be_redeemed_tokens,
        v0.backing_collateral - v2.backing_collateral == p + value,
{
}

/// Redeem then cancel without reimbursement on an active vault: the
/// redeemer gains exactly the punishment fee in DOT, the locked wBTC comes
/// back intact, and the vault's to-be-redeemed commitment is reversed.
pub proof fn lemma_redeem_cancel_no_reimburse_round_trip(
    v0: Vault,
    v1: Vault,
    v2: Vault,
    amount: Amount,
    ab: Amount,
    fee: Amount,
    p: Amount,
    dot0: Amount,
    dot2: Amount,
    tok_free0: Amount,
    tok_free1: Amount,
    tok_free2: Amount,
    tok_locked0: Amount,
    tok_locked1: Amount,
    tok_locked2: Amount,
)
    requires
        ab == amount - fee,
        fee <= amount,
        // after request_redeem
        v1 == (Vault {
            to_be_redeemed_tokens: (v0.to_be_redeemed_tokens + ab) as u128,
            ..v0
        }),
        v0.to_be_redeemed_tokens + ab <= u128::MAX,
        tok_free1 == tok_free0 - amount,
        tok_locked1 == tok_locked0 + amount,
        tok_free0 >= amount,
        tok_locked0 + amount <= u128::MAX,
        // after cancel_redeem without reimburse
        v2.issued_tokens == v1.issued_tokens,
        v2.to_be_redeemed_tokens == v1.to_be_redeemed_tokens - ab,
        v2.backing_collateral == v1.backing_collateral - p,
        v2.to_be_issued_tokens == v1.to_be_issued_tokens,
        v1.to_be_redeemed_tokens >= ab,
        v1.backing_collateral >= p,
        dot2 == dot0 + p,
        dot0 + p <= u128::MAX,
        tok_locked2 == tok_locked1 - amount,
        tok_free2 == tok_free1 + amount,
    ensures
        dot2 - dot0 == p,
        tok_free2 == tok_free0,
        tok_locked2 == tok_locked0,
        v2.issued_tokens == v0.issued_tokens,
        v2.to_be_redeemed_tokens == v0.to_be_redeemed_tokens,
        v2.to_be_issued_tokens == v0.to_be_issued_tokens,
{
}

/// A completed replace conserves the total of issued tokens: the old
/// vault's issued column falls by the amount, the new vault's rises by the
/// same amount. The hypotheses are the vault clauses of `replace_tokens`
/// for two distinct vaults.
pub proof fn lemma_replace_conserves_issued(
    ov0: Vault,
    nv0: Vault,
    ov1: Vault,
    nv1: Vault,
    amount: Amount,
    collateral: Amount,
)
    requires
        ov1 == (Vault {
            issued_tokens: (ov0.issued_tokens - amount) as u128,
            to_be_redeemed_tokens: (ov0.to_be_redeemed_tokens - amount) as u128,
            backing_collateral: (ov0.backing_collateral - collateral) as u128,
            ..ov0
        }),
        ov0.issued_tokens >= amount,
        ov0.to_be_redeemed_tokens >= amount,
        ov0.backing_collateral >= collateral,
        nv1 == (Vault {
            issued_tokens: (nv0.issued_tokens + amount) as u128,
            to_be_issued_tokens: (nv0.to_be_issued_tokens - amount) as u128,
            ..nv0
        }),
        nv0.issued_tokens + amount <= u128::MAX,
        nv0.to_be_issued_tokens >= amount,
    ensures
        ov0.issued_tokens - ov1.issued_tokens == amount,
        nv1.issued_tokens - nv0.issued_tokens == amount,
        ov1.issued_tokens + nv1.issued_tokens == ov0.issued_tokens + nv0.issued_tokens,
{
}

} // verus!
