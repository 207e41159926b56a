//! Data model of the bridge: vaults and the liquidation vault, the three
//! request kinds, collateral sources, payment evidence, and the events each
//! operation reports. Amounts are unsigned integers: wBTC amounts are
//! denominated in the backing chain's base unit, collateral in the issuing
//! chain's.

use vstd::prelude::*;
use crate::table::Keyed;

verus! {

pub type AccountId = u64;
pub type BlockNumber = u64;
pub type RequestId = u64;
pub type Amount = u128;

/// An address on the backing chain, reduced to an opaque identifier.
#[derive(Clone, Copy, Debug, PartialEq, Eq, Structural)]
pub struct BtcAddress {
    pub value: u64,
}

impl BtcAddress {
    pub fn new(value: u64) -> (r: Self)
        ensures
            r.value == value,
    {
        BtcAddress { value }
    }
}

/// A vault's public key on the backing chain, reduced to an opaque
/// identifier.
#[derive(Clone, Copy, Debug, PartialEq, Eq, Structural)]
pub struct BtcPublicKey {
    pub value: u64,
}

impl BtcPublicKey {
    pub fn new(value: u64) -> (r: Self)
        ensures
            r.value == value,
    {
        BtcPublicKey { value }
    }
}

/// What the backing-chain verifier attests about one transaction: its
/// recipient, the amount paid there, and the request id carried in an
/// unspendable output, if any. The host obtains this through SPV proof
/// checking; the bridge core holds it against the open request.
#[derive(Clone, Copy, Debug, PartialEq, Eq)]
pub struct BtcPayment {
    pub recipient: BtcAddress,
    pub amount: Amount,
    pub op_return: Option<RequestId>,
}

/// The origin of a dispatched call.
#[derive(Clone, Copy, Debug, PartialEq, Eq)]
pub enum Origin {
    Root,
    Signed(AccountId),
}

#[derive(Clone, Copy, Debug, PartialEq, Eq, Structural)]
pub enum VaultStatus {
    Active,
    Liquidated,
    CommittedTheft,
}

/// One economically-secured operator: its token counters, its locked backing
/// collateral, and its lifecycle state.
#[derive(Clone, Copy, Debug, PartialEq, Eq)]
pub struct Vault {
    pub id: AccountId,
    pub to_be_issued_tokens: Amount,
    pub issued_tokens: Amount,
    pub to_be_redeemed_tokens: Amount,
    pub to_be_replaced_tokens: Amount,
    pub backing_collateral: Amount,
    pub public_key: BtcPublicKey,
    pub banned_until: Option<BlockNumber>,
    pub status: VaultStatus,
}

impl Keyed for Vault {
    open spec fn key(&self) -> u64 {
        self.id
    }

    fn key_of(&self) -> (k: u64) {
        self.id
    }
}

impl Vault {
    /// The per-vault counter invariant.
    pub open spec fn counters_ok(self) -> bool {
        &&& self.to_be_redeemed_tokens <= self.issued_tokens
        &&& self.to_be_replaced_tokens <= self.issued_tokens - self.to_be_redeemed_tokens
    }

    /// Tokens the vault is or will be on the hook for.
    pub open spec fn outstanding(self) -> int {
        self.issued_tokens + self.to_be_issued_tokens - self.to_be_redeemed_tokens
    }

    /// Tokens still available for redeem or replace commitments.
    pub open spec fn redeemable(self) -> int {
        self.issued_tokens - self.to_be_redeemed_tokens
    }

    pub open spec fn is_liquidated(self) -> bool {
        self.status is Liquidated
    }

    pub open spec fn is_banned_at(self, height: BlockNumber) -> bool {
        match self.banned_until {
            Some(until) => height <= until,
            None => false,
        }
    }
}

/// The singleton sink for the obligations of liquidated vaults.
#[derive(Clone, Copy, Debug, PartialEq, Eq)]
pub struct SystemVault {
    pub to_be_issued_tokens: Amount,
    pub issued_tokens: Amount,
    pub to_be_redeemed_tokens: Amount,
}

impl SystemVault {
    pub open spec fn counters_ok(self) -> bool {
        self.to_be_redeemed_tokens <= self.issued_tokens + self.to_be_issued_tokens
    }

    /// Tokens still redeemable against the liquidation vault.
    pub open spec fn redeemable(self) -> int {
        self.issued_tokens + self.to_be_issued_tokens - self.to_be_redeemed_tokens
    }
}

/// A named collateral bucket; `slash_collateral` is the only way collateral
/// moves between buckets.
#[derive(Clone, Copy, Debug, PartialEq, Eq, Structural)]
pub enum CurrencySource {
    /// A vault's locked backing collateral.
    Backing(AccountId),
    /// An account's locked griefing collateral.
    Griefing(AccountId),
    /// An account's free balance.
    FreeBalance(AccountId),
    /// The liquidation vault's collateral bucket.
    LiquidationVault,
}

/// Free and locked holdings of one account in a single-currency ledger.
#[derive(Clone, Copy, Debug, PartialEq, Eq)]
pub struct AccountBalance {
    pub id: AccountId,
    pub free: Amount,
    pub locked: Amount,
}

impl Keyed for AccountBalance {
    open spec fn key(&self) -> u64 {
        self.id
    }

    fn key_of(&self) -> (k: u64) {
        self.id
    }
}

#[derive(Clone, Copy, Debug, PartialEq, Eq)]
pub struct IssueRequest {
    pub id: RequestId,
    pub requester: AccountId,
    pub vault: AccountId,
    pub opentime: BlockNumber,
    /// wBTC to be minted to the requester.
    pub amount: Amount,
    /// wBTC to be minted to the fee pool.
    pub fee: Amount,
    /// DOT locked from the requester against abandonment.
    pub griefing_collateral: Amount,
    /// Deposit address registered with the vault, unique to this request.
    pub btc_address: BtcAddress,
    /// Snapshot of the vault's key at request time.
    pub btc_public_key: BtcPublicKey,
    pub completed: bool,
    pub cancelled: bool,
}

impl Keyed for IssueRequest {
    open spec fn key(&self) -> u64 {
        self.id
    }

    fn key_of(&self) -> (k: u64) {
        self.id
    }
}

impl IssueRequest {
    pub open spec fn is_open(self) -> bool {
        !self.completed && !self.cancelled
    }
}

#[derive(Clone, Copy, Debug, PartialEq, Eq)]
pub struct RedeemRequest {
    pub id: RequestId,
    pub redeemer: AccountId,
    pub vault: AccountId,
    pub opentime: BlockNumber,
    /// BTC the vault must send to the redeemer (the requested amount net of
    /// the fee).
    pub amount_btc: Amount,
    /// wBTC kept by the fee pool on execution.
    pub fee: Amount,
    /// DOT bonus paid to the redeemer when the vault was under the premium
    /// threshold at request time.
    pub premium: Amount,
    /// The redeemer's refund address on the backing chain.
    pub btc_address: BtcAddress,
    pub completed: bool,
    pub cancelled: bool,
    /// Chosen by the redeemer at cancel time.
    pub reimburse: bool,
}

impl Keyed for RedeemRequest {
    open spec fn key(&self) -> u64 {
        self.id
    }

    fn key_of(&self) -> (k: u64) {
        self.id
    }
}

impl RedeemRequest {
    pub open spec fn is_open(self) -> bool {
        !self.completed && !self.cancelled
    }
}

#[derive(Clone, Copy, Debug, PartialEq, Eq)]
pub struct ReplaceRequest {
    pub id: RequestId,
    pub old_vault: AccountId,
    /// Set when a new vault accepts, or immediately on auction.
    pub new_vault: Option<AccountId>,
    pub open_time: BlockNumber,
    pub accept_time: Option<BlockNumber>,
    pub amount: Amount,
    /// DOT locked from the old vault against abandonment.
    pub griefing_collateral: Amount,
    /// DOT locked by the new vault on accept.
    pub collateral: Amount,
    /// The new vault's deposit address, set on accept.
    pub btc_address: Option<BtcAddress>,
    pub completed: bool,
    pub cancelled: bool,
}

impl Keyed for ReplaceRequest {
    open spec fn key(&self) -> u64 {
        self.id
    }

    fn key_of(&self) -> (k: u64) {
        self.id
    }
}

impl ReplaceRequest {
    pub open spec fn is_open(self) -> bool {
        !self.completed && !self.cancelled
    }

    pub open spec fn is_accepted(self) -> bool {
        self.new_vault is Some
    }
}

/// A refund of surplus BTC that the host must forward to the external refund
/// module.
#[derive(Clone, Copy, Debug, PartialEq, Eq)]
pub struct RefundRequest {
    pub surplus: Amount,
    pub vault: AccountId,
    pub requester: AccountId,
    pub refund_address: BtcAddress,
    pub issue_id: RequestId,
}

// Events: the public wire contract. Each operation returns the event it
// would emit, carrying the request id and the accounting deltas.

#[derive(Clone, Copy, Debug, PartialEq, Eq)]
pub struct RequestIssueEvent {
    pub issue_id: RequestId,
    pub requester: AccountId,
    /// Total to pay on the backing chain: amount plus fee.
    pub amount_btc: Amount,
    pub fee: Amount,
    pub griefing_collateral: Amount,
    pub vault_id: AccountId,
    pub vault_btc_address: BtcAddress,
    pub vault_public_key: BtcPublicKey,
}

#[derive(Clone, Copy, Debug, PartialEq, Eq)]
pub struct ExecuteIssueEvent {
    pub issue_id: RequestId,
    pub requester: AccountId,
    pub total_amount: Amount,
    pub vault_id: AccountId,
    /// Surplus routed to the external refund module, when the vault could
    /// not absorb an overpayment.
    pub refund: Option<RefundRequest>,
}

#[derive(Clone, Copy, Debug, PartialEq, Eq)]
pub struct CancelIssueEvent {
    pub issue_id: RequestId,
    pub requester: AccountId,
    pub griefing_collateral: Amount,
}

#[derive(Clone, Copy, Debug, PartialEq, Eq)]
pub struct RequestRedeemEvent {
    pub redeem_id: RequestId,
    pub redeemer: AccountId,
    /// BTC the vault must send (net of fee).
    pub amount_btc: Amount,
    pub fee: Amount,
    pub premium: Amount,
    pub vault_id: AccountId,
    pub btc_address: BtcAddress,
}

#[derive(Clone, Copy, Debug, PartialEq, Eq)]
pub struct ExecuteRedeemEvent {
    pub redeem_id: RequestId,
    pub redeemer: AccountId,
    pub vault_id: AccountId,
    pub amount_btc: Amount,
    pub fee: Amount,
}

#[derive(Clone, Copy, Debug, PartialEq, Eq)]
pub struct CancelRedeemEvent {
    pub redeem_id: RequestId,
    pub redeemer: AccountId,
    pub reimburse: bool,
    /// DOT moved to the redeemer as punishment (active vault only).
    pub punishment: Amount,
    /// DOT moved to the redeemer in place of the BTC (reimburse only).
    pub reimbursement: Amount,
}

#[derive(Clone, Copy, Debug, PartialEq, Eq)]
pub struct LiquidationRedeemEvent {
    pub redeemer: AccountId,
    pub amount_wbtc: Amount,
    /// DOT paid out of the liquidation vault's collateral.
    pub transferred_dot: Amount,
}

#[derive(Clone, Copy, Debug, PartialEq, Eq)]
pub struct RequestReplaceEvent {
    pub replace_id: RequestId,
    pub old_vault: AccountId,
    pub amount_btc: Amount,
    pub griefing_collateral: Amount,
}

#[derive(Clone, Copy, Debug, PartialEq, Eq)]
pub struct WithdrawReplaceEvent {
    pub replace_id: RequestId,
    pub old_vault: AccountId,
}

#[derive(Clone, Copy, Debug, PartialEq, Eq)]
pub struct AcceptReplaceEvent {
    pub replace_id: RequestId,
    pub old_vault: AccountId,
    pub new_vault: AccountId,
    pub amount_btc: Amount,
    pub collateral: Amount,
    pub btc_address: BtcAddress,
}

#[derive(Clone, Copy, Debug, PartialEq, Eq)]
pub struct AuctionReplaceEvent {
    pub replace_id: RequestId,
    pub old_vault: AccountId,
    pub new_vault: AccountId,
    pub btc_amount: Amount,
    pub collateral: Amount,
    /// DOT slashed from the old vault to the new vault's free balance.
    pub reward: Amount,
    pub griefing_collateral: Amount,
    pub current_height: BlockNumber,
    pub btc_address: BtcAddress,
}

#[derive(Clone, Copy, Debug, PartialEq, Eq)]
pub struct ExecuteReplaceEvent {
    pub replace_id: RequestId,
    pub old_vault: AccountId,
    pub new_vault: AccountId,
}

#[derive(Clone, Copy, Debug, PartialEq, Eq)]
pub struct CancelReplaceEvent {
    pub replace_id: RequestId,
    pub new_vault: AccountId,
    pub old_vault: AccountId,
    pub griefing_collateral: Amount,
}

#[derive(Clone, Copy, Debug, PartialEq, Eq)]
pub struct LiquidateVaultEvent {
    pub vault_id: AccountId,
    /// DOT moved from the vault's backing to the liquidation vault.
    pub slashed_collateral: Amount,
}

} // verus!
