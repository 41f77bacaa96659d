use vstd::prelude::*;
use crate::address::Address;

verus! {

/// Announces a newly configured token.
#[derive(Clone, Copy, Debug, PartialEq, Eq)]
pub struct TokenInitialized {
    pub mint: Address,
    pub authority: Address,
    pub total_supply: u64,
    pub decimals: u8,
    pub marketing_wallet: Address,
}

/// Announces the net part of an accepted transfer.
#[derive(Clone, Copy, Debug, PartialEq, Eq)]
pub struct TransferExecuted {
    pub from: Address,
    pub to: Address,
    pub amount: u64,
    pub timestamp: i64,
}

/// Announces the four fee shares of an accepted transfer.
#[derive(Clone, Copy, Debug, PartialEq, Eq, Structural)]
pub struct FeesCollected {
    pub reflection_amount: u64,
    pub marketing_amount: u64,
    pub burn_amount: u64,
    pub dev_amount: u64,
    pub timestamp: i64,
}

/// Announces a change (or a confirmation) of the trading switch.
#[derive(Clone, Copy, Debug, PartialEq, Eq, Structural)]
pub struct TradingStatusChanged {
    pub enabled: bool,
    pub timestamp: i64,
}

/// Announces a new fee schedule.
#[derive(Clone, Copy, Debug, PartialEq, Eq, Structural)]
pub struct FeesUpdated {
    pub reflection_fee_bp: u16,
    pub marketing_fee_bp: u16,
    pub burn_fee_bp: u16,
    pub dev_fee_bp: u16,
    pub timestamp: i64,
}

} // verus!
