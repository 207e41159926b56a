//! The replace protocol's unit tests: every failure mode of request,
//! withdraw, accept, auction, execute and cancel, and the happy paths with
//! their exact counter and balance movements.

use btc_bridge::bridge::{Bridge, ExtBuilder, Params};
use btc_bridge::errors::Error;
use btc_bridge::fixed_point::UnsignedFixedPoint;
use btc_bridge::types::{
    AcceptReplaceEvent, AuctionReplaceEvent, BtcAddress, BtcPayment, BtcPublicKey,
    CancelReplaceEvent, ExecuteReplaceEvent, Origin, ReplaceRequest, RequestReplaceEvent, Vault,
    VaultStatus, WithdrawReplaceEvent,
};

const ALICE: u64 = 1;
const BOB: u64 = 2;
const CAROL: u64 = 3;

fn test_bridge() -> Bridge {
    let mut params = Params::standard();
    params.replace_btc_dust_value = 2;
    let mut b = ExtBuilder::new().with_params(params).build();
    b.set_block_number(1);
    b
}

fn dummy_public_key() -> BtcPublicKey {
    BtcPublicKey::new(2)
}

fn insert_vault(b: &mut Bridge, v: Vault) {
    b.vaults.push(v);
}

fn test_vault(id: u64) -> Vault {
    Vault {
        id,
        banned_until: None,
        issued_tokens: 5,
        to_be_replaced_tokens: 0,
        to_be_issued_tokens: 0,
        to_be_redeemed_tokens: 0,
        backing_collateral: 0,
        public_key: dummy_public_key(),
        status: VaultStatus::Active,
    }
}

fn test_request() -> ReplaceRequest {
    ReplaceRequest {
        id: 0,
        new_vault: None,
        old_vault: ALICE,
        open_time: 0,
        accept_time: None,
        amount: 10,
        griefing_collateral: 0,
        btc_address: Some(BtcAddress::new(0)),
        collateral: 20,
        completed: false,
        cancelled: false,
    }
}

fn insert_replace(b: &mut Bridge, req: ReplaceRequest) {
    if b.nonce <= req.id {
        b.nonce = req.id + 1;
    }
    b.replace_requests.push(req);
}

fn endow_dot(b: &mut Bridge, account: u64, free: u128) {
    let locked = b.get_collateral_from_account(account);
    b.collateral.set_balance(account, free, locked);
}

#[test]
fn test_request_replace_transfer_zero_fails() {
    let mut b = test_bridge();
    let mut v = test_vault(BOB);
    v.issued_tokens = 100;
    insert_vault(&mut b, v);
    assert_eq!(
        b.request_replace(BOB, 0, 0).unwrap_err(),
        Error::AmountBelowDustAmount
    );
}

#[test]
fn test_request_replace_vault_not_found_fails() {
    let mut b = test_bridge();
    assert_eq!(
        b.request_replace(10_000, 5, 0).unwrap_err(),
        Error::VaultNotFound
    );
}

#[test]
fn test_request_replace_vault_banned_fails() {
    let mut b = test_bridge();
    let mut v = test_vault(BOB);
    v.issued_tokens = 0;
    v.banned_until = Some(1);
    insert_vault(&mut b, v);
    assert_eq!(b.request_replace(BOB, 5, 0).unwrap_err(), Error::VaultBanned);
}

#[test]
fn test_request_replace_amount_below_dust_value_fails() {
    let mut b = test_bridge();
    let mut v = test_vault(BOB);
    v.issued_tokens = 10;
    insert_vault(&mut b, v);
    assert_eq!(
        b.request_replace(BOB, 1, 0).unwrap_err(),
        Error::AmountBelowDustAmount
    );
}

#[test]
fn test_request_replace_insufficient_griefing_collateral_fails() {
    let mut b = test_bridge();
    b.set_exchange_rate(UnsignedFixedPoint::checked_from_integer(10).unwrap());
    let mut v = test_vault(BOB);
    v.issued_tokens = 10;
    insert_vault(&mut b, v);
    // at rate 10 the required griefing collateral for 3 tokens is
    // 10% * 30 = 3 > 0
    assert_eq!(
        b.request_replace(BOB, 3, 0).unwrap_err(),
        Error::InsufficientCollateral
    );
}

#[test]
fn test_withdraw_replace_request_invalid_replace_id_fails() {
    let mut b = test_bridge();
    assert_eq!(
        b.withdraw_replace_request(ALICE, 0).unwrap_err(),
        Error::ReplaceIdNotFound
    );
}

#[test]
fn test_withdraw_replace_request_invalid_vault_id_fails() {
    let mut b = test_bridge();
    insert_replace(&mut b, test_request());
    assert_eq!(
        b.withdraw_replace_request(ALICE, 0).unwrap_err(),
        Error::VaultNotFound
    );
}

#[test]
fn test_withdraw_replace_req_vault_id_mismatch_fails() {
    let mut b = test_bridge();
    insert_replace(&mut b, test_request());
    insert_vault(&mut b, test_vault(ALICE));
    assert_eq!(
        b.withdraw_replace_request(BOB, 0).unwrap_err(),
        Error::UnauthorizedVault
    );
}

#[test]
fn test_withdraw_replace_req_under_secure_threshold_fails() {
    let mut b = test_bridge();
    insert_replace(&mut b, test_request());
    insert_vault(&mut b, test_vault(ALICE));
    assert_eq!(
        b.withdraw_replace_request(BOB, 0).unwrap_err(),
        Error::UnauthorizedVault
    );
}

#[test]
fn test_withdraw_replace_req_has_new_owner_fails() {
    let mut b = test_bridge();
    let mut req = test_request();
    req.old_vault = ALICE;
    req.new_vault = Some(3);
    insert_replace(&mut b, req);
    insert_vault(&mut b, test_vault(ALICE));
    assert_eq!(
        b.withdraw_replace_request(ALICE, 0).unwrap_err(),
        Error::CancelAcceptedRequest
    );
}

#[test]
fn test_accept_replace_bad_replace_id_fails() {
    let mut b = test_bridge();
    insert_vault(&mut b, test_vault(ALICE));
    assert_eq!(
        b.accept_replace(ALICE, 0, 100_000, BtcAddress::new(0)).unwrap_err(),
        Error::ReplaceIdNotFound
    );
}

#[test]
fn test_accept_replace_bad_vault_id_fails() {
    let mut b = test_bridge();
    insert_replace(&mut b, test_request());
    assert_eq!(
        b.accept_replace(ALICE, 0, 100_000, BtcAddress::new(0)).unwrap_err(),
        Error::VaultNotFound
    );
}

#[test]
fn test_accept_replace_vault_banned_fails() {
    let mut b = test_bridge();
    insert_replace(&mut b, test_request());
    let mut v = test_vault(BOB);
    v.banned_until = Some(100);
    insert_vault(&mut b, v);
    assert_eq!(
        b.accept_replace(BOB, 0, 100_000, BtcAddress::new(0)).unwrap_err(),
        Error::VaultBanned
    );
}

#[test]
fn test_accept_replace_insufficient_collateral_fails() {
    let mut b = test_bridge();
    let mut req = test_request();
    req.old_vault = ALICE;
    insert_replace(&mut b, req);
    let mut old = test_vault(ALICE);
    old.issued_tokens = 100;
    old.to_be_replaced_tokens = 10;
    insert_vault(&mut b, old);
    // the new vault's overall position would be under-collateralized
    let mut new = test_vault(BOB);
    new.issued_tokens = 1_000_000;
    insert_vault(&mut b, new);
    endow_dot(&mut b, BOB, 100_000);
    assert_eq!(
        b.accept_replace(BOB, 0, 100_000, BtcAddress::new(0)).unwrap_err(),
        Error::ExceedingVaultLimit
    );
}

#[test]
fn test_auction_replace_bad_old_vault_id_fails() {
    let mut b = test_bridge();
    insert_vault(&mut b, test_vault(BOB));
    assert_eq!(
        b.auction_replace(ALICE, BOB, 100, 100_000, BtcAddress::new(0)).unwrap_err(),
        Error::VaultNotFound
    );
}

#[test]
fn test_auction_replace_bad_new_vault_id_fails() {
    let mut b = test_bridge();
    insert_vault(&mut b, test_vault(ALICE));
    assert_eq!(
        b.auction_replace(ALICE, BOB, 100, 100_000, BtcAddress::new(0)).unwrap_err(),
        Error::VaultNotFound
    );
}

#[test]
fn test_auction_replace_insufficient_collateral_fails() {
    let mut b = test_bridge();
    // the old vault is comfortably collateralized, so no auction is allowed
    let mut old = test_vault(ALICE);
    old.issued_tokens = 100;
    old.backing_collateral = 1_000_000;
    insert_vault(&mut b, old);
    insert_vault(&mut b, test_vault(BOB));
    assert_eq!(
        b.auction_replace(ALICE, BOB, 100, 100_000, BtcAddress::new(0)).unwrap_err(),
        Error::VaultOverAuctionThreshold
    );
}

#[test]
fn test_execute_replace_bad_replace_id_fails() {
    let mut b = test_bridge();
    let payment = BtcPayment { recipient: BtcAddress::new(0), amount: 0, op_return: Some(0) };
    assert_eq!(
        b.execute_replace(0, payment).unwrap_err(),
        Error::ReplaceIdNotFound
    );
}

#[test]
fn test_execute_replace_replace_period_expired_fails() {
    let mut b = test_bridge();
    let mut req = test_request();
    req.open_time = 100_000;
    req.new_vault = Some(BOB);
    insert_replace(&mut b, req);
    b.set_block_number(110_000);
    let payment = BtcPayment { recipient: BtcAddress::new(0), amount: 10, op_return: Some(0) };
    assert_eq!(
        b.execute_replace(0, payment).unwrap_err(),
        Error::ReplacePeriodExpired
    );
}

#[test]
fn test_cancel_replace_invalid_replace_id_fails() {
    let mut b = test_bridge();
    assert_eq!(b.cancel_replace(ALICE, 0).unwrap_err(), Error::ReplaceIdNotFound);
}

#[test]
fn test_cancel_replace_period_not_expired_fails() {
    let mut b = test_bridge();
    insert_replace(&mut b, test_request());
    b.set_block_number(1);
    b.set_replace_period(Origin::Root, 2).unwrap();
    assert_eq!(
        b.cancel_replace(ALICE, 0).unwrap_err(),
        Error::ReplacePeriodNotExpired
    );
}

#[test]
fn test_cancel_replace_period_not_expired_current_height_0_fails() {
    let mut b = test_bridge();
    insert_replace(&mut b, test_request());
    b.set_block_number(0);
    b.set_replace_period(Origin::Root, 2).unwrap();
    assert_eq!(
        b.cancel_replace(ALICE, 0).unwrap_err(),
        Error::ReplacePeriodNotExpired
    );
}

#[test]
fn test_request_replace_with_amount_exceed_vault_issued_tokens_succeeds() {
    let mut b = test_bridge();
    let vault_id = BOB;
    let amount: u128 = 6;
    let griefing_collateral: u128 = 10_000;
    insert_vault(&mut b, test_vault(BOB));
    endow_dot(&mut b, BOB, griefing_collateral);
    let ev = b.request_replace(vault_id, amount, griefing_collateral).unwrap();
    // the amount is clamped to the vault's issued tokens
    assert_eq!(
        ev,
        RequestReplaceEvent {
            replace_id: 0,
            old_vault: vault_id,
            amount_btc: 5,
            griefing_collateral,
        }
    );
    assert_eq!(b.get_vault_from_id(BOB).unwrap().to_be_replaced_tokens, 5);
    assert_eq!(b.get_collateral_from_account(BOB), griefing_collateral);
}

#[test]
fn test_request_replace_with_amount_less_than_vault_issued_tokens_succeeds() {
    let mut b = test_bridge();
    let vault_id = BOB;
    let amount: u128 = 3;
    let griefing_collateral: u128 = 10_000;
    insert_vault(&mut b, test_vault(BOB));
    endow_dot(&mut b, BOB, griefing_collateral);
    let ev = b.request_replace(vault_id, amount, griefing_collateral).unwrap();
    assert_eq!(
        ev,
        RequestReplaceEvent {
            replace_id: 0,
            old_vault: vault_id,
            amount_btc: 3,
            griefing_collateral,
        }
    );
}

#[test]
fn test_withdraw_replace_succeeds() {
    let mut b = test_bridge();
    let mut req = test_request();
    req.old_vault = BOB;
    insert_replace(&mut b, req);
    let mut v = test_vault(BOB);
    v.issued_tokens = 15;
    v.to_be_replaced_tokens = 10;
    insert_vault(&mut b, v);
    let ev = b.withdraw_replace_request(BOB, 0).unwrap();
    assert_eq!(ev, WithdrawReplaceEvent { replace_id: 0, old_vault: BOB });
    assert_eq!(b.get_vault_from_id(BOB).unwrap().to_be_replaced_tokens, 0);
}

#[test]
fn test_accept_replace_succeeds() {
    let mut b = test_bridge();
    let old_vault_id = ALICE;
    let new_vault_id = BOB;
    let collateral: u128 = 20_000;
    let btc_amount: u128 = 100;
    let mut req = test_request();
    req.old_vault = old_vault_id;
    req.amount = btc_amount;
    insert_replace(&mut b, req);
    let mut old = test_vault(ALICE);
    old.issued_tokens = 200;
    old.to_be_replaced_tokens = 100;
    insert_vault(&mut b, old);
    insert_vault(&mut b, test_vault(BOB));
    endow_dot(&mut b, BOB, collateral);
    let ev = b.accept_replace(new_vault_id, 0, collateral, BtcAddress::new(0)).unwrap();
    assert_eq!(
        ev,
        AcceptReplaceEvent {
            replace_id: 0,
            old_vault: old_vault_id,
            new_vault: new_vault_id,
            amount_btc: btc_amount,
            collateral,
            btc_address: BtcAddress::new(0),
        }
    );
    let old_after = b.get_vault_from_id(ALICE).unwrap();
    assert_eq!(old_after.to_be_replaced_tokens, 0);
    assert_eq!(old_after.to_be_redeemed_tokens, 100);
    let new_after = b.get_vault_from_id(BOB).unwrap();
    assert_eq!(new_after.to_be_issued_tokens, 100);
    assert_eq!(new_after.backing_collateral, collateral);
}

#[test]
fn test_auction_replace_succeeds() {
    let mut b = test_bridge();
    // no griefing collateral is asked of the old vault in this scenario
    b.params.replace_griefing_collateral = UnsignedFixedPoint { inner: 0 };
    let old_vault_id = ALICE;
    let new_vault_id = BOB;
    let btc_amount: u128 = 1000;
    let collateral: u128 = 20_000;
    let height: u64 = 10;
    let reward: u128 = 50;
    let griefing_collateral: u128 = 0;
    b.set_block_number(height);
    let mut old = test_vault(ALICE);
    old.issued_tokens = 1000;
    old.backing_collateral = 100;
    insert_vault(&mut b, old);
    insert_vault(&mut b, test_vault(BOB));
    endow_dot(&mut b, BOB, collateral);
    let ev = b
        .auction_replace(old_vault_id, new_vault_id, btc_amount, collateral, BtcAddress::new(0))
        .unwrap();
    // the reward is 5% of the DOT value of the auctioned amount
    assert_eq!(
        ev,
        AuctionReplaceEvent {
            replace_id: 0,
            old_vault: old_vault_id,
            new_vault: new_vault_id,
            btc_amount,
            collateral,
            reward,
            griefing_collateral,
            current_height: height,
            btc_address: BtcAddress::new(0),
        }
    );
    let old_after = b.get_vault_from_id(ALICE).unwrap();
    assert_eq!(old_after.to_be_redeemed_tokens, 1000);
    assert_eq!(old_after.backing_collateral, 100 - reward);
    let new_after = b.get_vault_from_id(BOB).unwrap();
    assert_eq!(new_after.to_be_issued_tokens, 1000);
    assert_eq!(b.get_balance_from_account(BOB), reward);
}

#[test]
fn test_execute_replace_succeeds() {
    let mut b = test_bridge();
    let old_vault_id = ALICE;
    let new_vault_id = BOB;
    let mut req = test_request();
    req.old_vault = old_vault_id;
    req.new_vault = Some(new_vault_id);
    req.open_time = 5;
    insert_replace(&mut b, req);
    b.set_block_number(10);
    b.set_replace_period(Origin::Root, 20).unwrap();
    let mut old = test_vault(ALICE);
    old.issued_tokens = 50;
    old.to_be_redeemed_tokens = 10;
    old.backing_collateral = 100;
    insert_vault(&mut b, old);
    let mut new = test_vault(BOB);
    new.issued_tokens = 0;
    new.to_be_issued_tokens = 10;
    insert_vault(&mut b, new);
    let payment = BtcPayment { recipient: BtcAddress::new(0), amount: 10, op_return: Some(0) };
    let ev = b.execute_replace(0, payment).unwrap();
    assert_eq!(
        ev,
        ExecuteReplaceEvent {
            replace_id: 0,
            old_vault: old_vault_id,
            new_vault: new_vault_id,
        }
    );
    // the tokens moved from the old vault's issued column to the new one's
    assert_eq!(b.get_vault_from_id(ALICE).unwrap().issued_tokens, 40);
    assert_eq!(b.get_vault_from_id(BOB).unwrap().issued_tokens, 10);
}

#[test]
fn test_cancel_replace_succeeds() {
    let mut b = test_bridge();
    let new_vault_id = BOB;
    let old_vault_id = ALICE;
    let griefing_collateral: u128 = 0;
    let mut req = test_request();
    req.old_vault = old_vault_id;
    req.new_vault = Some(new_vault_id);
    req.open_time = 2;
    insert_replace(&mut b, req);
    b.set_block_number(15);
    b.set_replace_period(Origin::Root, 2).unwrap();
    let mut old = test_vault(ALICE);
    old.issued_tokens = 50;
    old.to_be_redeemed_tokens = 10;
    insert_vault(&mut b, old);
    let mut new = test_vault(BOB);
    new.to_be_issued_tokens = 10;
    insert_vault(&mut b, new);
    let ev = b.cancel_replace(new_vault_id, 0).unwrap();
    assert_eq!(
        ev,
        CancelReplaceEvent {
            replace_id: 0,
            new_vault: new_vault_id,
            old_vault: old_vault_id,
            griefing_collateral,
        }
    );
    assert_eq!(b.get_vault_from_id(ALICE).unwrap().to_be_redeemed_tokens, 0);
    assert_eq!(b.get_vault_from_id(BOB).unwrap().to_be_issued_tokens, 0);
}

#[test]
fn test_cancel_replace_as_third_party_fails() {
    let mut b = test_bridge();
    let mut req = test_request();
    req.old_vault = ALICE;
    req.new_vault = Some(BOB);
    req.open_time = 2;
    insert_replace(&mut b, req);
    b.set_block_number(15);
    b.set_replace_period(Origin::Root, 2).unwrap();
    assert_eq!(b.cancel_replace(CAROL, 0).unwrap_err(), Error::UnauthorizedVault);
}

#[test]
fn test_request_replace_parachain_not_running_fails() {
    let mut b = test_bridge();
    b.set_parachain_running(false);
    assert_eq!(
        b.request_replace(10_000, 1, 0).unwrap_err(),
        Error::ParachainNotRunning
    );
}

#[test]
fn test_accept_replace_parachain_not_running_fails() {
    let mut b = test_bridge();
    b.set_parachain_running(false);
    assert_eq!(
        b.accept_replace(BOB, 0, 1, BtcAddress::new(0)).unwrap_err(),
        Error::ParachainNotRunning
    );
}

#[test]
fn test_auction_replace_parachain_not_running_fails() {
    let mut b = test_bridge();
    b.set_parachain_running(false);
    assert_eq!(
        b.auction_replace(ALICE, BOB, 1, 1, BtcAddress::new(0)).unwrap_err(),
        Error::ParachainNotRunning
    );
}

#[test]
fn test_execute_replace_parachain_not_running_fails() {
    let mut b = test_bridge();
    b.set_parachain_running(false);
    let payment = BtcPayment { recipient: BtcAddress::new(0), amount: 0, op_return: Some(0) };
    assert_eq!(b.execute_replace(0, payment).unwrap_err(), Error::ParachainNotRunning);
}

#[test]
fn test_cancel_replace_parachain_not_running_fails() {
    let mut b = test_bridge();
    b.set_parachain_running(false);
    assert_eq!(b.cancel_replace(ALICE, 0).unwrap_err(), Error::ParachainNotRunning);
}

#[test]
fn test_withdraw_replace_parachain_not_running_succeeds() {
    let mut b = test_bridge();
    let mut req = test_request();
    req.old_vault = BOB;
    insert_replace(&mut b, req);
    let mut v = test_vault(BOB);
    v.issued_tokens = 15;
    v.to_be_replaced_tokens = 10;
    insert_vault(&mut b, v);
    b.set_parachain_running(false);
    let ev = b.withdraw_replace_request(BOB, 0).unwrap();
    assert_eq!(ev, WithdrawReplaceEvent { replace_id: 0, old_vault: BOB });
    assert_eq!(b.get_vault_from_id(BOB).unwrap().to_be_replaced_tokens, 0);
}

#[test]
fn test_set_replace_period_only_root() {
    let mut b = test_bridge();
    assert_eq!(
        b.set_replace_period(Origin::Signed(ALICE), 1).unwrap_err(),
        Error::BadOrigin
    );
    assert!(b.set_replace_period(Origin::Root, 1).is_ok());
}

#[test]
fn test_has_request_expired() {
    let mut b = test_bridge();
    b.set_block_number(4525);
    assert!(b.has_request_expired(11, 300));
    assert!(!b.has_request_expired(2758, 5000));
}
