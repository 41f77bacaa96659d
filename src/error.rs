use vstd::prelude::*;

verus! {

/// Why an operation of the configuration store or the transfer engine was
/// refused. A refused operation changes no state.
#[derive(Clone, Copy, Debug, PartialEq, Eq, Structural)]
pub enum BigBallsError {
    TradingNotEnabled,
    ExceedsMaxTransaction,
    ExceedsMaxWallet,
    CooldownNotElapsed,
    InvalidFeeCalculation,
    InvalidAmount,
    Unauthorized,
    InvalidMarketingWallet,
    InvalidFeeConfiguration,
}

} // verus!
