//! The redeem protocol end to end: execution against a healthy vault,
//! premium redemption against an under-collateralized one, redemption
//! against the liquidation vault, and the two cancellation paths.

use btc_bridge::bridge::{Bridge, ExtBuilder, Params};
use btc_bridge::errors::Error;
use btc_bridge::fixed_point::UnsignedFixedPoint;
use btc_bridge::types::{
    BtcAddress, BtcPayment, BtcPublicKey, SystemVault, Vault, VaultStatus,
};

const ALICE: u64 = 1;
const BOB: u64 = 2;

fn user_btc_address() -> BtcAddress {
    BtcAddress::new(2)
}

fn dummy_public_key() -> BtcPublicKey {
    BtcPublicKey::new(2)
}

fn test_bridge() -> Bridge {
    let mut b = ExtBuilder::new().with_params(Params::standard()).build();
    b.set_block_number(1);
    b
}

fn endow_dot(b: &mut Bridge, account: u64, free: u128) {
    let locked = b.get_collateral_from_account(account);
    b.collateral.set_balance(account, free, locked);
}

fn force_issue_tokens(b: &mut Bridge, user: u64, vault: u64, collateral: u128, tokens: u128) {
    endow_dot(b, vault, collateral);
    b.register_vault(vault, collateral, dummy_public_key()).unwrap();
    b.try_increase_to_be_issued_tokens(vault, tokens).unwrap();
    b.issue_tokens(vault, tokens).unwrap();
    b.mint(user, tokens).unwrap();
}

#[test]
fn integration_test_redeem_should_fail_if_not_running() {
    let mut b = test_bridge();
    b.set_parachain_running(false);
    assert_eq!(
        b.request_redeem(ALICE, 1000, BtcAddress::new(0), BOB).unwrap_err(),
        Error::ParachainNotRunning
    );
}

#[test]
fn integration_test_redeem_polka_btc_execute() {
    let mut b = test_bridge();
    let user = ALICE;
    let vault = BOB;
    let collateral_vault: u128 = 1_000_000_000_000;
    let polka_btc: u128 = 1_000_000_000_000;

    b.set_exchange_rate(UnsignedFixedPoint::checked_from_rational(1, 100_000).unwrap());
    force_issue_tokens(&mut b, user, vault, collateral_vault, polka_btc);

    let initial_dot_balance = b.get_balance_from_account(user);
    let initial_btc_balance = b.get_token_balance_from_account(user);
    let initial_btc_issuance = b.get_total_supply().unwrap();
    assert_eq!(polka_btc, initial_btc_issuance);

    let ev = b.request_redeem(user, polka_btc, user_btc_address(), vault).unwrap();
    let redeem_id = ev.redeem_id;

    let payment = BtcPayment {
        recipient: user_btc_address(),
        amount: polka_btc,
        op_return: Some(redeem_id),
    };
    b.set_block_number(7);
    b.execute_redeem(redeem_id, payment).unwrap();

    let final_dot_balance = b.get_balance_from_account(user);
    let final_btc_balance = b.get_token_balance_from_account(user);
    let final_btc_issuance = b.get_total_supply().unwrap();

    assert_eq!(final_dot_balance, initial_dot_balance);
    // the full requested amount was burned from the user, fee included
    assert_eq!(final_btc_balance, initial_btc_balance - polka_btc);
    // the issuance fell by the amount the vault sent
    assert_eq!(final_btc_issuance, initial_btc_issuance - ev.amount_btc);
}

#[test]
fn integration_test_premium_redeem_polka_btc_execute() {
    let mut b = test_bridge();
    let user = ALICE;
    let vault = BOB;
    let polka_btc: u128 = 1_000_000_000;

    b.set_exchange_rate(UnsignedFixedPoint::one());
    let fee: u128 = 5_000_000;
    let collateral_vault = b.get_required_collateral_for_polkabtc(polka_btc + fee).unwrap();
    force_issue_tokens(&mut b, user, vault, collateral_vault, polka_btc);

    // the rate doubles: the vault is now below the premium redeem threshold
    b.set_exchange_rate(UnsignedFixedPoint::checked_from_integer(2).unwrap());

    let initial_dot_balance = b.get_balance_from_account(user);
    let initial_btc_balance = b.get_token_balance_from_account(user);
    let initial_vault_collateral = b.get_vault_from_id(vault).unwrap().backing_collateral;
    let initial_btc_issuance = b.get_total_supply().unwrap();
    assert_eq!(polka_btc, initial_btc_issuance);

    let ev = b.request_redeem(user, polka_btc, user_btc_address(), vault).unwrap();
    assert!(ev.premium > 0);
    let redeem_id = ev.redeem_id;

    let payment = BtcPayment {
        recipient: user_btc_address(),
        amount: polka_btc,
        op_return: Some(redeem_id),
    };
    b.set_block_number(7);
    b.execute_redeem(redeem_id, payment).unwrap();

    let final_dot_balance = b.get_balance_from_account(user);
    let final_btc_balance = b.get_token_balance_from_account(user);
    let final_btc_issuance = b.get_total_supply().unwrap();

    // the user received a premium in DOT
    assert!(final_dot_balance > initial_dot_balance);
    // a zero-sum game: the user's gain is the vault's loss
    assert_eq!(
        initial_vault_collateral + initial_dot_balance,
        b.get_vault_from_id(vault).unwrap().backing_collateral + final_dot_balance
    );
    assert_eq!(final_btc_balance, initial_btc_balance - polka_btc);
    assert_eq!(final_btc_issuance, initial_btc_issuance - ev.amount_btc);
}

#[test]
fn integration_test_redeem_polka_btc_liquidation_redeem() {
    let mut b = test_bridge();
    b.set_exchange_rate(UnsignedFixedPoint::one());

    let issued: u128 = 400;
    let to_be_issued: u128 = 100;
    let to_be_redeemed: u128 = 50;

    b.mint(ALICE, 1000).unwrap();
    b.vaults.push(Vault {
        id: BOB,
        to_be_issued_tokens: to_be_issued,
        issued_tokens: issued,
        to_be_redeemed_tokens: to_be_redeemed,
        to_be_replaced_tokens: 0,
        backing_collateral: 10_000,
        public_key: dummy_public_key(),
        banned_until: None,
        status: VaultStatus::Active,
    });

    let slashed = b.liquidate_vault(BOB).unwrap();
    assert_eq!(slashed, 10_000 - (10_000 * to_be_redeemed) / (issued + to_be_issued));
    assert_eq!(
        b.liquidation_vault,
        SystemVault {
            to_be_issued_tokens: to_be_issued,
            issued_tokens: issued,
            to_be_redeemed_tokens: to_be_redeemed,
        }
    );
    assert_eq!(b.liquidation_collateral, slashed);

    // more than issued + to_be_issued - to_be_redeemed cannot be redeemed
    assert_eq!(
        b.liquidation_redeem(ALICE, 451).unwrap_err(),
        Error::InsufficientTokensCommitted
    );

    let ev = b.liquidation_redeem(ALICE, 325).unwrap();
    assert_eq!(ev.transferred_dot, (slashed * 325) / (issued + to_be_issued));
    assert_eq!(
        b.get_balance_from_account(ALICE),
        (slashed * 325) / (issued + to_be_issued)
    );
    assert_eq!(b.get_token_balance_from_account(ALICE), 1000 - 325);
    // issued + to_be_issued fell by the redeemed amount
    assert_eq!(
        b.liquidation_vault.issued_tokens + b.liquidation_vault.to_be_issued_tokens,
        issued + to_be_issued - 325
    );
}

#[test]
fn integration_test_redeem_polka_btc_cancel_reimburse() {
    let mut b = test_bridge();
    let user = ALICE;
    let vault = BOB;
    let amount_btc: u128 = 100_000;
    let collateral: u128 = 100_000_000;

    b.set_exchange_rate(UnsignedFixedPoint::one());
    let fee: u128 = 500;
    force_issue_tokens(&mut b, user, vault, collateral, amount_btc - fee);
    b.mint(user, fee).unwrap();

    let initial_balance_dot = b.get_balance_from_account(user);
    let initial_balance_btc = b.get_token_balance_from_account(user)
        + b.get_locked_token_balance_from_account(user);

    let ev = b.request_redeem(user, amount_btc, user_btc_address(), vault).unwrap();
    let redeem_id = ev.redeem_id;
    assert_eq!(ev.fee, fee);

    // the request expires without a BTC payment
    b.set_block_number(b.params.redeem_period + 1 + 1);
    let payment = BtcPayment {
        recipient: user_btc_address(),
        amount: amount_btc,
        op_return: Some(redeem_id),
    };
    assert_eq!(
        b.execute_redeem(redeem_id, payment).unwrap_err(),
        Error::CommitPeriodExpired
    );

    let amount_without_fee_dot = b.btc_to_dots(ev.amount_btc).unwrap();
    let punishment_fee = b.get_punishment_fee(amount_without_fee_dot).unwrap();
    assert!(punishment_fee > 0);

    let cancel_ev = b.cancel_redeem(user, redeem_id, true).unwrap();
    assert_eq!(cancel_ev.punishment, punishment_fee);
    assert_eq!(cancel_ev.reimbursement, amount_without_fee_dot);

    // balance increased by the punishment fee plus the reimbursed value
    assert_eq!(
        b.get_balance_from_account(user),
        initial_balance_dot + amount_without_fee_dot + punishment_fee
    );
    // the fee comes back, the rest of the requested wBTC is gone
    assert_eq!(
        b.get_token_balance_from_account(user),
        initial_balance_btc - (amount_btc - ev.fee)
    );
    // the vault is banned for the punishment delay
    assert_eq!(
        b.get_vault_from_id(vault).unwrap().banned_until,
        Some(b.params.redeem_period + 2 + b.params.punishment_delay)
    );
}

#[test]
fn integration_test_redeem_polka_btc_cancel_no_reimburse() {
    let mut b = test_bridge();
    let user = ALICE;
    let vault = BOB;
    let amount_btc: u128 = 1000;
    let collateral: u128 = 100_000_000;

    b.set_exchange_rate(UnsignedFixedPoint::one());
    let fee: u128 = 5;
    force_issue_tokens(&mut b, user, vault, collateral, amount_btc - fee);
    b.mint(user, fee).unwrap();

    let initial_balance_dot = b.get_balance_from_account(user);
    let initial_balance_btc = b.get_token_balance_from_account(user)
        + b.get_locked_token_balance_from_account(user);

    let ev = b.request_redeem(user, amount_btc, user_btc_address(), vault).unwrap();
    let redeem_id = ev.redeem_id;

    b.set_block_number(b.params.redeem_period + 1 + 1);
    let punishment_fee = b.get_punishment_fee(b.btc_to_dots(ev.amount_btc).unwrap()).unwrap();
    assert!(punishment_fee > 0);

    b.cancel_redeem(user, redeem_id, false).unwrap();

    // the DOT balance grew by the punishment fee alone
    assert_eq!(
        b.get_balance_from_account(user),
        initial_balance_dot + punishment_fee
    );
    // the wBTC came back intact
    assert_eq!(b.get_token_balance_from_account(user), initial_balance_btc);
    // the to-be-redeemed commitment was reversed
    assert_eq!(b.get_vault_from_id(vault).unwrap().to_be_redeemed_tokens, 0);
}

#[test]
fn scenario_redeem_premium_execute() {
    // a vault collateralized between the premium and auction thresholds
    let mut b = test_bridge();
    b.set_exchange_rate(UnsignedFixedPoint::one());
    b.vaults.push(Vault {
        id: BOB,
        to_be_issued_tokens: 0,
        issued_tokens: 100_000,
        to_be_redeemed_tokens: 0,
        to_be_replaced_tokens: 0,
        backing_collateral: 130_000,
        public_key: dummy_public_key(),
        banned_until: None,
        status: VaultStatus::Active,
    });
    b.mint(ALICE, 100_000).unwrap();

    let ev = b.request_redeem(ALICE, 100_000, user_btc_address(), BOB).unwrap();
    assert_eq!(ev.fee, 500);
    assert_eq!(ev.amount_btc, 99_500);
    // 5% of the DOT value of the amount to be sent
    assert_eq!(ev.premium, 4975);

    let payment = BtcPayment {
        recipient: user_btc_address(),
        amount: 99_500,
        op_return: Some(ev.redeem_id),
    };
    b.execute_redeem(ev.redeem_id, payment).unwrap();

    assert_eq!(b.get_balance_from_account(ALICE), 4975);
    assert_eq!(b.get_token_balance_from_account(ALICE), 0);
    assert_eq!(b.get_vault_from_id(BOB).unwrap().issued_tokens, 500);
    assert_eq!(b.get_vault_from_id(BOB).unwrap().backing_collateral, 130_000 - 4975);
}

#[test]
fn redeem_request_below_dust_fails() {
    let mut b = test_bridge();
    b.params.redeem_btc_dust_value = 5;
    force_issue_tokens(&mut b, ALICE, BOB, 1_000_000, 1000);
    assert_eq!(
        b.request_redeem(ALICE, 4, user_btc_address(), BOB).unwrap_err(),
        Error::AmountBelowDustAmount
    );
}

#[test]
fn redeem_request_beyond_redeemable_fails() {
    let mut b = test_bridge();
    force_issue_tokens(&mut b, ALICE, BOB, 1_000_000, 1000);
    b.mint(ALICE, 1_000_000).unwrap();
    // the vault has only 1000 issued tokens
    assert_eq!(
        b.request_redeem(ALICE, 2000, user_btc_address(), BOB).unwrap_err(),
        Error::InsufficientTokensCommitted
    );
}

#[test]
fn redeem_execute_wrong_payment_fails() {
    let mut b = test_bridge();
    force_issue_tokens(&mut b, ALICE, BOB, 1_000_000, 1000);
    let ev = b.request_redeem(ALICE, 1000, user_btc_address(), BOB).unwrap();
    // paid to the wrong address
    let bad_recipient = BtcPayment {
        recipient: BtcAddress::new(99),
        amount: 1000,
        op_return: Some(ev.redeem_id),
    };
    assert_eq!(
        b.execute_redeem(ev.redeem_id, bad_recipient).unwrap_err(),
        Error::InvalidPayment
    );
    // paid too little
    let too_little = BtcPayment {
        recipient: user_btc_address(),
        amount: ev.amount_btc - 1,
        op_return: Some(ev.redeem_id),
    };
    assert_eq!(
        b.execute_redeem(ev.redeem_id, too_little).unwrap_err(),
        Error::InvalidPayment
    );
    // missing the request id
    let no_op_return = BtcPayment {
        recipient: user_btc_address(),
        amount: ev.amount_btc,
        op_return: None,
    };
    assert_eq!(
        b.execute_redeem(ev.redeem_id, no_op_return).unwrap_err(),
        Error::InvalidPayment
    );
}

#[test]
fn redeem_cancel_liquidated_reimburse_pays_from_liquidation_pool() {
    let mut b = test_bridge();
    let amount: u128 = 1_000;
    force_issue_tokens(&mut b, ALICE, BOB, 1_000_000, amount);
    let ev = b.request_redeem(ALICE, amount, user_btc_address(), BOB).unwrap();

    // the vault fails and is liquidated while the redeem is in flight
    b.liquidate_vault(BOB).unwrap();
    let pool = b.liquidation_collateral;
    let lv_total = b.liquidation_vault.issued_tokens + b.liquidation_vault.to_be_issued_tokens;

    b.set_block_number(b.params.redeem_period + 1 + 1);
    let cancel = b.cancel_redeem(ALICE, ev.redeem_id, true).unwrap();

    // the payment comes pro rata out of the liquidation vault's collateral
    let expected = (pool * ev.amount_btc) / lv_total;
    assert_eq!(cancel.reimbursement, expected);
    assert_eq!(cancel.punishment, 0);
    assert_eq!(b.get_balance_from_account(ALICE), expected);
    assert_eq!(b.liquidation_collateral, pool - expected);
    // the burned tokens leave the liquidation vault's books
    assert_eq!(b.liquidation_vault.issued_tokens, amount - ev.amount_btc);
    // the fee comes back to the redeemer
    assert_eq!(b.get_token_balance_from_account(ALICE), ev.fee);
}

#[test]
fn redeem_cancel_liquidated_no_reimburse_returns_tokens() {
    let mut b = test_bridge();
    let amount: u128 = 1_000;
    force_issue_tokens(&mut b, ALICE, BOB, 1_000_000, amount);
    let ev = b.request_redeem(ALICE, amount, user_btc_address(), BOB).unwrap();
    b.liquidate_vault(BOB).unwrap();
    let pool = b.liquidation_collateral;

    b.set_block_number(b.params.redeem_period + 1 + 1);
    let cancel = b.cancel_redeem(ALICE, ev.redeem_id, false).unwrap();
    assert_eq!(cancel.punishment, 0);
    assert_eq!(cancel.reimbursement, 0);

    // the wBTC comes back intact; the liquidation pool is untouched
    assert_eq!(b.get_token_balance_from_account(ALICE), amount);
    assert_eq!(b.get_balance_from_account(ALICE), 0);
    assert_eq!(b.liquidation_collateral, pool);
    assert_eq!(b.liquidation_vault.to_be_redeemed_tokens, 0);
}

#[test]
fn redeem_execute_liquidated_settles_on_liquidation_vault() {
    let mut b = test_bridge();
    let amount: u128 = 1_000;
    force_issue_tokens(&mut b, ALICE, BOB, 1_000_000, amount);
    let ev = b.request_redeem(ALICE, amount, user_btc_address(), BOB).unwrap();
    b.liquidate_vault(BOB).unwrap();
    let lv_issued = b.liquidation_vault.issued_tokens;

    let payment = BtcPayment {
        recipient: user_btc_address(),
        amount: ev.amount_btc,
        op_return: Some(ev.redeem_id),
    };
    b.execute_redeem(ev.redeem_id, payment).unwrap();

    // the burned tokens leave the liquidation vault's books
    assert_eq!(b.liquidation_vault.issued_tokens, lv_issued - ev.amount_btc);
    assert_eq!(b.liquidation_vault.to_be_redeemed_tokens, 0);
    assert_eq!(b.get_token_balance_from_account(ALICE), 0);
    assert_eq!(b.get_locked_token_balance_from_account(ALICE), 0);
}

#[test]
fn redeem_cancel_by_other_user_fails() {
    let mut b = test_bridge();
    force_issue_tokens(&mut b, ALICE, BOB, 1_000_000, 1000);
    let ev = b.request_redeem(ALICE, 1000, user_btc_address(), BOB).unwrap();
    b.set_block_number(100);
    assert_eq!(
        b.cancel_redeem(BOB, ev.redeem_id, false).unwrap_err(),
        Error::UnauthorizedVault
    );
}
