//! A fungible-token policy core: a configuration store whose fee schedule
//! and trading switch only the authority may change, and a transfer engine
//! that enforces trading, size and cooldown rules and splits each transfer
//! into a net amount and four basis-point fees.
pub mod address;
pub mod config;
pub mod error;
pub mod events;
pub mod ledger;
pub mod transfer;

pub use address::Address;
pub use config::{check_authority, initialize, set_trading_enabled, update_fees, TokenConfig};
pub use error::BigBallsError;
pub use ledger::{CooldownLedger, HolderState};
pub use transfer::{can_settle, settle_transfer, transfer, TransferPlan, TransferReceipt};
pub use events::{FeesCollected, FeesUpdated, TokenInitialized, TradingStatusChanged, TransferExecuted};
