//! A single-owner custodial wallet.
//!
//! The wallet's persistent state (its owner and an optional charity setting)
//! is an explicit value, and every operation is a checked transition of it.
//! Operations that move value do not move it themselves: they return the
//! token transfers that the host must carry out, all together or none.
pub mod address;
pub mod fee;
pub mod laws;
pub mod ledger;
pub mod wallet;

pub use address::Address;
pub use wallet::{CharityConfig, DropletWallet, TokenTransfer, WalletError};
