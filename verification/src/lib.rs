//! On-chain core of a trust-minimized bridge between a proof-of-work backing
//! chain ("BTC") and an account-based issuing chain ("DOT"): vaults lock DOT
//! collateral to back a wrapped token ("wBTC") that users obtain through the
//! issue, redeem and replace protocols, with a liquidation path for failed
//! vaults. Every state transition is verified against the accounting
//! invariants of the vault registry.

pub mod bridge;
pub mod collateral;
pub mod errors;
pub mod fee;
pub mod fixed_point;
pub mod issue;
pub mod laws;
pub mod ledger;
pub mod redeem;
pub mod replace;
pub mod table;
pub mod treasury;
pub mod types;
pub mod vault_registry;
