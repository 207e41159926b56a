//! The issue protocol end to end: the happy path with its exact minted
//! amounts, the two overpayment outcomes, cancellation after expiry with
//! its griefing slash, and the deadline boundaries.

use btc_bridge::bridge::{Bridge, ExtBuilder, Params};
use btc_bridge::errors::Error;
use btc_bridge::types::{BtcAddress, BtcPayment, BtcPublicKey, VaultStatus};

const ALICE: u64 = 1;
const BOB: u64 = 2;

fn dummy_public_key() -> BtcPublicKey {
    BtcPublicKey::new(2)
}

fn test_bridge() -> Bridge {
    let mut b = ExtBuilder::new().with_params(Params::standard()).build();
    b.set_block_number(1);
    b
}

fn endow_dot(b: &mut Bridge, account: u64, free: u128) {
    let locked = b.get_collateral_from_account(account);
    b.collateral.set_balance(account, free, locked);
}

fn register_backed_vault(b: &mut Bridge, vault: u64, collateral: u128) {
    endow_dot(b, vault, collateral);
    b.register_vault(vault, collateral, dummy_public_key()).unwrap();
}

#[test]
fn scenario_issue_happy_path() {
    // IssueFeeRate 0.5%, IssueGriefingRate 0.005%, one DOT per satoshi
    let mut b = test_bridge();
    let amount: u128 = 1_000_000_000;
    register_backed_vault(&mut b, BOB, 2_000_000_000);
    endow_dot(&mut b, ALICE, 1_000_000);

    // the required griefing collateral is 0.005% of the DOT value
    assert_eq!(b.get_issue_griefing_collateral(amount).unwrap(), 50_000);
    let griefing: u128 = 100_000;
    let ev = b.request_issue(ALICE, amount, BOB, griefing).unwrap();
    assert_eq!(ev.fee, 5_000_000);
    assert_eq!(ev.amount_btc, 1_005_000_000);
    assert_eq!(b.get_collateral_from_account(ALICE), griefing);

    // the vault pays exactly amount plus fee on the backing chain
    let payment = BtcPayment {
        recipient: ev.vault_btc_address,
        amount: 1_005_000_000,
        op_return: None,
    };
    let exec = b.execute_issue(ALICE, ev.issue_id, payment, BtcAddress::new(9)).unwrap();
    assert_eq!(exec.total_amount, 1_005_000_000);
    assert_eq!(exec.refund, None);

    // amount to the user, fee to the fee pool, griefing released
    assert_eq!(b.get_token_balance_from_account(ALICE), 1_000_000_000);
    assert_eq!(
        b.get_token_balance_from_account(b.params.fee_pool_account_id),
        5_000_000
    );
    assert_eq!(b.get_collateral_from_account(ALICE), 0);
    assert_eq!(b.get_balance_from_account(ALICE), 1_000_000);
    let v = b.get_vault_from_id(BOB).unwrap();
    assert_eq!(v.issued_tokens, 1_005_000_000);
    assert_eq!(v.to_be_issued_tokens, 0);
    // conservation: the supply equals the issued column
    assert_eq!(b.get_total_supply().unwrap(), 1_005_000_000);
    // the per-vault counter invariant holds
    assert!(v.to_be_redeemed_tokens <= v.issued_tokens);
    assert!(v.to_be_replaced_tokens <= v.issued_tokens - v.to_be_redeemed_tokens);
}

#[test]
fn scenario_issue_overpay_request_rewritten() {
    let mut b = test_bridge();
    let amount: u128 = 1_000_000_000;
    register_backed_vault(&mut b, BOB, 4_000_000_000);
    endow_dot(&mut b, ALICE, 1_000_000);

    let ev = b.request_issue(ALICE, amount, BOB, 100_000).unwrap();

    // the vault pays twice the requested total; its collateral can absorb
    // the surplus, so the request is rewritten
    let payment = BtcPayment {
        recipient: ev.vault_btc_address,
        amount: 2_010_000_000,
        op_return: None,
    };
    let exec = b.execute_issue(ALICE, ev.issue_id, payment, BtcAddress::new(9)).unwrap();
    assert_eq!(exec.refund, None);
    assert_eq!(exec.total_amount, 2_010_000_000);

    // fee' = rate / (1 + rate) of the total paid; amount' the rest
    let req = b.issue_requests[0];
    assert!(req.completed);
    assert_eq!(req.fee, 10_000_000);
    assert_eq!(req.amount, 2_000_000_000);
    assert_eq!(b.get_token_balance_from_account(ALICE), 2_000_000_000);
    assert_eq!(b.get_vault_from_id(BOB).unwrap().issued_tokens, 2_010_000_000);
}

#[test]
fn issue_overpay_surplus_refunded() {
    let mut b = test_bridge();
    let amount: u128 = 1_000_000_000;
    // enough collateral for the request, but not for absorbing a surplus
    register_backed_vault(&mut b, BOB, 1_600_000_000);
    endow_dot(&mut b, ALICE, 1_000_000);

    let ev = b.request_issue(ALICE, amount, BOB, 100_000).unwrap();
    let payment = BtcPayment {
        recipient: ev.vault_btc_address,
        amount: 2_010_000_000,
        op_return: None,
    };
    let refund_address = BtcAddress::new(9);
    let exec = b.execute_issue(ALICE, ev.issue_id, payment, refund_address).unwrap();
    // the surplus goes to the refund module; the request keeps its amounts
    let refund = exec.refund.unwrap();
    assert_eq!(refund.surplus, 1_005_000_000);
    assert_eq!(refund.refund_address, refund_address);
    assert_eq!(refund.requester, ALICE);
    assert_eq!(exec.total_amount, 1_005_000_000);
    assert_eq!(b.get_token_balance_from_account(ALICE), 1_000_000_000);
}

#[test]
fn issue_cancel_returns_counters() {
    let mut b = test_bridge();
    let amount: u128 = 1_000_000_000;
    register_backed_vault(&mut b, BOB, 2_000_000_000);
    endow_dot(&mut b, ALICE, 1_000_000);
    let vault_before = b.get_vault_from_id(BOB).unwrap();

    let ev = b.request_issue(ALICE, amount, BOB, 100_000).unwrap();
    b.set_block_number(1 + b.params.issue_period + 1);
    let cancel = b.cancel_issue(ALICE, ev.issue_id).unwrap();
    assert_eq!(cancel.griefing_collateral, 100_000);

    // the vault's counters are back where they were; it keeps the
    // requester's griefing collateral as backing
    let vault_after = b.get_vault_from_id(BOB).unwrap();
    assert_eq!(vault_after.to_be_issued_tokens, vault_before.to_be_issued_tokens);
    assert_eq!(vault_after.issued_tokens, vault_before.issued_tokens);
    assert_eq!(
        vault_after.backing_collateral,
        vault_before.backing_collateral + 100_000
    );
    // the requester lost exactly the griefing collateral
    assert_eq!(b.get_balance_from_account(ALICE), 900_000);
    assert_eq!(b.get_collateral_from_account(ALICE), 0);
}

#[test]
fn issue_cancel_liquidated_vault_releases_griefing() {
    let mut b = test_bridge();
    let amount: u128 = 1_000;
    register_backed_vault(&mut b, BOB, 1_000_000);
    endow_dot(&mut b, ALICE, 1_000_000);
    let ev = b.request_issue(ALICE, amount, BOB, 100_000).unwrap();
    b.liquidate_vault(BOB).unwrap();
    b.set_block_number(1 + b.params.issue_period + 1);
    b.cancel_issue(ALICE, ev.issue_id).unwrap();
    // with the vault liquidated the griefing collateral comes back
    assert_eq!(b.get_balance_from_account(ALICE), 1_000_000);
    assert_eq!(b.get_collateral_from_account(ALICE), 0);
}

#[test]
fn issue_cancel_before_expiry_fails() {
    let mut b = test_bridge();
    register_backed_vault(&mut b, BOB, 2_000_000);
    endow_dot(&mut b, ALICE, 1_000_000);
    let ev = b.request_issue(ALICE, 1_000, BOB, 100_000).unwrap();
    // at exactly opentime + period the deadline has not yet passed
    b.set_block_number(1 + b.params.issue_period);
    assert_eq!(b.cancel_issue(ALICE, ev.issue_id).unwrap_err(), Error::TimeNotExpired);
    // one block later it has
    b.set_block_number(1 + b.params.issue_period + 1);
    assert!(b.cancel_issue(ALICE, ev.issue_id).is_ok());
}

#[test]
fn issue_execute_after_expiry_fails() {
    let mut b = test_bridge();
    register_backed_vault(&mut b, BOB, 2_000_000);
    endow_dot(&mut b, ALICE, 1_000_000);
    let ev = b.request_issue(ALICE, 1_000, BOB, 100_000).unwrap();
    let payment = BtcPayment {
        recipient: ev.vault_btc_address,
        amount: ev.amount_btc,
        op_return: None,
    };
    // at exactly opentime + period execution is still allowed
    b.set_block_number(1 + b.params.issue_period);
    assert!(b.execute_issue(ALICE, ev.issue_id, payment, BtcAddress::new(9)).is_ok());
}

#[test]
fn issue_execute_expired_request_fails() {
    let mut b = test_bridge();
    register_backed_vault(&mut b, BOB, 2_000_000);
    endow_dot(&mut b, ALICE, 1_000_000);
    let ev = b.request_issue(ALICE, 1_000, BOB, 100_000).unwrap();
    let payment = BtcPayment {
        recipient: ev.vault_btc_address,
        amount: ev.amount_btc,
        op_return: None,
    };
    b.set_block_number(1 + b.params.issue_period + 1);
    assert_eq!(
        b.execute_issue(ALICE, ev.issue_id, payment, BtcAddress::new(9)).unwrap_err(),
        Error::CommitPeriodExpired
    );
}

#[test]
fn issue_request_insufficient_griefing_fails() {
    let mut b = test_bridge();
    register_backed_vault(&mut b, BOB, 2_000_000_000);
    endow_dot(&mut b, ALICE, 1_000_000);
    // 0.005% of 1e9 is 50_000; offering less is refused
    assert_eq!(
        b.request_issue(ALICE, 1_000_000_000, BOB, 49_999).unwrap_err(),
        Error::InsufficientCollateral
    );
}

#[test]
fn issue_request_exceeding_vault_limit_fails() {
    let mut b = test_bridge();
    // collateral backs at most 1000 / 1.5 tokens
    register_backed_vault(&mut b, BOB, 1000);
    endow_dot(&mut b, ALICE, 1_000_000);
    assert_eq!(
        b.request_issue(ALICE, 1_000, BOB, 100_000).unwrap_err(),
        Error::ExceedingVaultLimit
    );
}

#[test]
fn issue_request_banned_vault_fails() {
    let mut b = test_bridge();
    register_backed_vault(&mut b, BOB, 2_000_000);
    endow_dot(&mut b, ALICE, 1_000_000);
    let i = b.vaults.iter().position(|v| v.id == BOB).unwrap();
    b.vaults[i].banned_until = Some(5);
    assert_eq!(
        b.request_issue(ALICE, 1_000, BOB, 100_000).unwrap_err(),
        Error::VaultBanned
    );
}

#[test]
fn issue_execute_on_liquidated_vault_mints() {
    let mut b = test_bridge();
    register_backed_vault(&mut b, BOB, 2_000_000);
    endow_dot(&mut b, ALICE, 1_000_000);
    let ev = b.request_issue(ALICE, 1_000, BOB, 100_000).unwrap();
    b.liquidate_vault(BOB).unwrap();
    let payment = BtcPayment {
        recipient: ev.vault_btc_address,
        amount: ev.amount_btc,
        op_return: None,
    };
    b.execute_issue(ALICE, ev.issue_id, payment, BtcAddress::new(9)).unwrap();
    // the tokens are issued on the liquidation vault's accounting
    assert_eq!(b.liquidation_vault.issued_tokens, ev.amount_btc);
    assert_eq!(b.liquidation_vault.to_be_issued_tokens, 0);
    assert_eq!(b.get_token_balance_from_account(ALICE), 1_000);
}

#[test]
fn issue_vault_status_liquidated_after_liquidation() {
    let mut b = test_bridge();
    register_backed_vault(&mut b, BOB, 2_000_000);
    b.liquidate_vault(BOB).unwrap();
    let v = b.get_vault_from_id(BOB).unwrap();
    assert_eq!(v.status, VaultStatus::Liquidated);
    assert_eq!(v.backing_collateral, 0);
    // no position, so the whole backing was slashed to the liquidation vault
    assert_eq!(b.liquidation_collateral, 0);
    assert_eq!(b.get_balance_from_account(BOB), 2_000_000);
}
