//! Cross-cutting checks: conservation of the wBTC supply against the
//! issued column over a whole protocol lifecycle, the collateral-movement
//! primitive, and the state-machine errors of the request tables.

use btc_bridge::bridge::{Bridge, ExtBuilder, Params};
use btc_bridge::errors::Error;
use btc_bridge::types::{BtcAddress, BtcPayment, BtcPublicKey, CurrencySource};

const ALICE: u64 = 1;
const BOB: u64 = 2;
const CAROL: u64 = 3;

fn dummy_public_key() -> BtcPublicKey {
    BtcPublicKey::new(2)
}

fn test_bridge() -> Bridge {
    let mut b = ExtBuilder::new().with_params(Params::standard()).build();
    b.set_block_number(1);
    b
}

fn endow_dot(b: &mut Bridge, account: u64, free: u128) {
    let locked = b.get_collateral_from_account(account);
    b.collateral.set_balance(account, free, locked);
}

fn register_backed_vault(b: &mut Bridge, vault: u64, collateral: u128) {
    endow_dot(b, vault, collateral);
    b.register_vault(vault, collateral, dummy_public_key()).unwrap();
}

fn total_issued(b: &Bridge) -> u128 {
    let mut sum: u128 = b.liquidation_vault.issued_tokens;
    for v in b.vaults.iter() {
        sum += v.issued_tokens;
    }
    sum
}

fn assert_conservation(b: &Bridge) {
    assert_eq!(b.get_total_supply().unwrap(), total_issued(b));
}

#[test]
fn supply_equals_issued_through_lifecycle() {
    let mut b = test_bridge();
    register_backed_vault(&mut b, BOB, 10_000_000);
    register_backed_vault(&mut b, CAROL, 10_000_000);
    endow_dot(&mut b, ALICE, 1_000_000);
    assert_conservation(&b);

    // issue 100_000 (plus 500 fee) against BOB
    let issue_ev = b.request_issue(ALICE, 100_000, BOB, 100_000).unwrap();
    assert_conservation(&b);
    let payment = BtcPayment {
        recipient: issue_ev.vault_btc_address,
        amount: issue_ev.amount_btc,
        op_return: None,
    };
    b.execute_issue(ALICE, issue_ev.issue_id, payment, BtcAddress::new(9)).unwrap();
    assert_conservation(&b);

    // redeem 40_000 of it
    let redeem_ev = b.request_redeem(ALICE, 40_000, BtcAddress::new(2), BOB).unwrap();
    assert_conservation(&b);
    let redeem_payment = BtcPayment {
        recipient: BtcAddress::new(2),
        amount: redeem_ev.amount_btc,
        op_return: Some(redeem_ev.redeem_id),
    };
    b.execute_redeem(redeem_ev.redeem_id, redeem_payment).unwrap();
    assert_conservation(&b);

    // replace 20_000 from BOB to CAROL
    endow_dot(&mut b, BOB, 1_000_000);
    let replace_ev = b.request_replace(BOB, 20_000, 500_000).unwrap();
    assert_conservation(&b);
    endow_dot(&mut b, CAROL, 1_000_000);
    b.accept_replace(CAROL, replace_ev.replace_id, 1_000_000, BtcAddress::new(7)).unwrap();
    assert_conservation(&b);
    let replace_payment = BtcPayment {
        recipient: BtcAddress::new(7),
        amount: 20_000,
        op_return: Some(replace_ev.replace_id),
    };
    let before_old = b.get_vault_from_id(BOB).unwrap().issued_tokens;
    let before_new = b.get_vault_from_id(CAROL).unwrap().issued_tokens;
    b.execute_replace(replace_ev.replace_id, replace_payment).unwrap();
    assert_conservation(&b);
    // the replaced tokens moved one-for-one
    assert_eq!(b.get_vault_from_id(BOB).unwrap().issued_tokens, before_old - 20_000);
    assert_eq!(b.get_vault_from_id(CAROL).unwrap().issued_tokens, before_new + 20_000);

    // liquidate BOB and redeem against the liquidation vault
    b.liquidate_vault(BOB).unwrap();
    assert_conservation(&b);
    b.liquidation_redeem(ALICE, 10_000).unwrap();
    assert_conservation(&b);
}

#[test]
fn slash_collateral_moves_between_buckets() {
    let mut b = test_bridge();
    register_backed_vault(&mut b, BOB, 5_000);
    endow_dot(&mut b, ALICE, 1_000);
    b.lock_collateral(ALICE, 400).unwrap();

    // griefing of ALICE to the vault's backing
    b.slash_collateral(CurrencySource::Griefing(ALICE), CurrencySource::Backing(BOB), 150)
        .unwrap();
    assert_eq!(b.get_collateral_from_account(ALICE), 250);
    assert_eq!(b.get_vault_from_id(BOB).unwrap().backing_collateral, 5_150);

    // backing to a free balance
    b.slash_collateral(CurrencySource::Backing(BOB), CurrencySource::FreeBalance(CAROL), 1_000)
        .unwrap();
    assert_eq!(b.get_vault_from_id(BOB).unwrap().backing_collateral, 4_150);
    assert_eq!(b.get_balance_from_account(CAROL), 1_000);

    // more than the bucket holds is refused, and nothing moves
    assert_eq!(
        b.slash_collateral(
            CurrencySource::Griefing(ALICE),
            CurrencySource::FreeBalance(CAROL),
            10_000,
        )
        .unwrap_err(),
        Error::InsufficientFunds
    );
    assert_eq!(b.get_collateral_from_account(ALICE), 250);
    assert_eq!(b.get_balance_from_account(CAROL), 1_000);
}

#[test]
fn issue_request_state_machine_errors() {
    let mut b = test_bridge();
    register_backed_vault(&mut b, BOB, 2_000_000);
    endow_dot(&mut b, ALICE, 1_000_000);

    let payment_any = BtcPayment { recipient: BtcAddress::new(0), amount: 0, op_return: None };
    assert_eq!(
        b.execute_issue(ALICE, 77, payment_any, BtcAddress::new(9)).unwrap_err(),
        Error::IssueIdNotFound
    );

    let ev = b.request_issue(ALICE, 1_000, BOB, 100_000).unwrap();
    let payment = BtcPayment {
        recipient: ev.vault_btc_address,
        amount: ev.amount_btc,
        op_return: None,
    };
    b.execute_issue(ALICE, ev.issue_id, payment, BtcAddress::new(9)).unwrap();
    // a completed request cannot be executed again
    assert_eq!(
        b.execute_issue(ALICE, ev.issue_id, payment, BtcAddress::new(9)).unwrap_err(),
        Error::IssueCompleted
    );

    let ev2 = b.request_issue(ALICE, 1_000, BOB, 100_000).unwrap();
    b.set_block_number(1 + b.params.issue_period + 1);
    b.cancel_issue(ALICE, ev2.issue_id).unwrap();
    // a cancelled request is closed for good
    assert_eq!(b.cancel_issue(ALICE, ev2.issue_id).unwrap_err(), Error::IssueCancelled);
}

#[test]
fn redeem_request_state_machine_errors() {
    let mut b = test_bridge();
    register_backed_vault(&mut b, BOB, 2_000_000);
    b.try_increase_to_be_issued_tokens(BOB, 10_000).unwrap();
    b.issue_tokens(BOB, 10_000).unwrap();
    b.mint(ALICE, 10_000).unwrap();

    let payment_any = BtcPayment { recipient: BtcAddress::new(0), amount: 0, op_return: None };
    assert_eq!(
        b.execute_redeem(77, payment_any).unwrap_err(),
        Error::RedeemIdNotFound
    );

    let ev = b.request_redeem(ALICE, 1_000, BtcAddress::new(2), BOB).unwrap();
    let payment = BtcPayment {
        recipient: BtcAddress::new(2),
        amount: ev.amount_btc,
        op_return: Some(ev.redeem_id),
    };
    b.execute_redeem(ev.redeem_id, payment).unwrap();
    assert_eq!(
        b.execute_redeem(ev.redeem_id, payment).unwrap_err(),
        Error::RedeemCompleted
    );
}

#[test]
fn register_vault_twice_fails() {
    let mut b = test_bridge();
    register_backed_vault(&mut b, BOB, 1_000);
    endow_dot(&mut b, BOB, 1_000);
    assert_eq!(
        b.register_vault(BOB, 1_000, dummy_public_key()).unwrap_err(),
        Error::VaultAlreadyRegistered
    );
}

#[test]
fn request_issue_without_funds_fails() {
    let mut b = test_bridge();
    register_backed_vault(&mut b, BOB, 2_000_000);
    // ALICE has no DOT to lock as griefing collateral
    assert_eq!(
        b.request_issue(ALICE, 1_000, BOB, 100_000).unwrap_err(),
        Error::InsufficientFunds
    );
}

#[test]
fn execute_replace_on_pending_request_fails() {
    let mut b = test_bridge();
    register_backed_vault(&mut b, BOB, 2_000_000);
    b.try_increase_to_be_issued_tokens(BOB, 10_000).unwrap();
    b.issue_tokens(BOB, 10_000).unwrap();
    b.mint(ALICE, 10_000).unwrap();
    endow_dot(&mut b, BOB, 1_000_000);
    let ev = b.request_replace(BOB, 5_000, 500_000).unwrap();
    let payment = BtcPayment {
        recipient: BtcAddress::new(0),
        amount: 5_000,
        op_return: Some(ev.replace_id),
    };
    // nobody has accepted the request, so there is nothing to execute
    assert_eq!(
        b.execute_replace(ev.replace_id, payment).unwrap_err(),
        Error::NoPendingRequest
    );
}

#[test]
fn treasury_lock_and_unlock_round_trip() {
    let mut b = test_bridge();
    b.mint(ALICE, 500).unwrap();
    b.lock_tokens(ALICE, 300).unwrap();
    assert_eq!(b.get_token_balance_from_account(ALICE), 200);
    assert_eq!(b.get_locked_token_balance_from_account(ALICE), 300);
    b.unlock_tokens(ALICE, 300).unwrap();
    assert_eq!(b.get_token_balance_from_account(ALICE), 500);
    assert_eq!(b.get_locked_token_balance_from_account(ALICE), 0);
    assert_eq!(b.get_total_supply().unwrap(), 500);
    b.burn_free_tokens(ALICE, 500).unwrap();
    assert_eq!(b.get_total_supply().unwrap(), 0);
}

#[test]
fn transfer_dot_moves_free_balances() {
    let mut b = test_bridge();
    endow_dot(&mut b, ALICE, 1_000);
    b.transfer_dot(ALICE, BOB, 400).unwrap();
    assert_eq!(b.get_balance_from_account(ALICE), 600);
    assert_eq!(b.get_balance_from_account(BOB), 400);
    assert_eq!(b.transfer_dot(ALICE, BOB, 601).unwrap_err(), Error::InsufficientFunds);
}

#[test]
fn issue_requests_per_account_and_vault() {
    let mut b = test_bridge();
    register_backed_vault(&mut b, BOB, 10_000_000);
    register_backed_vault(&mut b, CAROL, 10_000_000);
    endow_dot(&mut b, ALICE, 1_000_000);
    endow_dot(&mut b, 4, 1_000_000);
    let a1 = b.request_issue(ALICE, 1_000, BOB, 100_000).unwrap();
    let a2 = b.request_issue(ALICE, 2_000, CAROL, 100_000).unwrap();
    let o1 = b.request_issue(4, 3_000, BOB, 100_000).unwrap();

    let for_alice = b.get_issue_requests_for_account(ALICE);
    assert_eq!(for_alice.len(), 2);
    assert_eq!(for_alice[0].id, a1.issue_id);
    assert_eq!(for_alice[1].id, a2.issue_id);

    let for_bob = b.get_issue_requests_for_vault(BOB);
    assert_eq!(for_bob.len(), 2);
    assert_eq!(for_bob[0].id, a1.issue_id);
    assert_eq!(for_bob[1].id, o1.issue_id);
}

#[test]
fn get_issue_request_from_id_checks_state() {
    let mut b = test_bridge();
    register_backed_vault(&mut b, BOB, 2_000_000);
    endow_dot(&mut b, ALICE, 1_000_000);
    assert_eq!(b.get_issue_request_from_id(5).unwrap_err(), Error::IssueIdNotFound);
    let ev = b.request_issue(ALICE, 1_000, BOB, 100_000).unwrap();
    let req = b.get_issue_request_from_id(ev.issue_id).unwrap();
    assert_eq!(req.amount, 1_000);
    assert_eq!(req.requester, ALICE);
    assert_eq!(req.vault, BOB);
}
