use vstd::prelude::*;
use crate::address::Address;
use crate::error::BigBallsError;
use crate::events::{FeesUpdated, TokenInitialized, TradingStatusChanged};

verus! {

/// Whole tokens in the supply, before scaling by the decimals.
pub const WHOLE_TOKEN_SUPPLY: u64 = 1_000_000_000;

/// The largest number of decimals for which the scaled supply fits in a `u64`.
pub const MAX_DECIMALS: u8 = 10;

/// Basis points in one whole (100%).
pub const BASIS_POINTS: u64 = 10_000;

/// The ceiling on the sum of the four fee rates, in basis points (10%).
pub const MAX_TOTAL_FEE_BP: u64 = 1_000;

pub const DEFAULT_REFLECTION_FEE_BP: u16 = 200;
pub const DEFAULT_MARKETING_FEE_BP: u16 = 150;
pub const DEFAULT_BURN_FEE_BP: u16 = 100;
pub const DEFAULT_DEV_FEE_BP: u16 = 50;

pub const DEFAULT_BUY_COOLDOWN: i64 = 300;
pub const DEFAULT_SELL_COOLDOWN: i64 = 1800;
pub const DEFAULT_TRANSACTION_COOLDOWN: i64 = 60;

/// Ten to the power `n`.
pub open spec fn pow10(n: nat) -> nat
    decreases n,
{
    if n == 0 {
        1
    } else {
        10 * pow10((n - 1) as nat)
    }
}

/// The total supply, in base units, of a token with `decimals` decimals.
pub open spec fn supply_for(decimals: u8) -> int {
    WHOLE_TOKEN_SUPPLY * pow10(decimals as nat)
}

/// The sum of four fee rates, in basis points.
pub open spec fn fee_sum(reflection: u16, marketing: u16, burn: u16, dev: u16) -> int {
    reflection + marketing + burn + dev
}

/// The economic parameters of one token deployment and the principal that
/// may change them.
#[derive(Clone, Debug)]
pub struct TokenConfig {
    pub name: String,
    pub symbol: String,
    pub decimals: u8,
    pub total_supply: u64,
    pub trading_enabled: bool,
    pub authority: Address,
    pub marketing_wallet: Address,
    pub max_transaction_amount: u64,
    pub max_wallet_amount: u64,
    pub reflection_fee_bp: u16,
    pub marketing_fee_bp: u16,
    pub burn_fee_bp: u16,
    pub dev_fee_bp: u16,
    pub buy_cooldown: i64,
    pub sell_cooldown: i64,
    pub transaction_cooldown: i64,
}

impl TokenConfig {
    pub open spec fn total_fee_bp(self) -> int {
        fee_sum(self.reflection_fee_bp, self.marketing_fee_bp, self.burn_fee_bp, self.dev_fee_bp)
    }

    /// What holds of every configuration from its creation on.
    pub open spec fn wf(self) -> bool {
        &&& self.decimals <= MAX_DECIMALS
        &&& self.total_supply == supply_for(self.decimals)
        &&& self.max_transaction_amount == self.total_supply / 1000
        &&& self.max_wallet_amount == self.total_supply / 100
        &&& self.total_fee_bp() <= MAX_TOTAL_FEE_BP
        &&& !self.authority.spec_is_zero()
        &&& !self.marketing_wallet.spec_is_zero()
    }

    /// The configuration that `initialize` creates.
    pub open spec fn spec_initial(
        name: String,
        symbol: String,
        decimals: u8,
        marketing_wallet: Address,
        authority: Address,
    ) -> TokenConfig {
        let supply = supply_for(decimals);
        TokenConfig {
            name,
            symbol,
            decimals,
            total_supply: supply as u64,
            trading_enabled: false,
            authority,
            marketing_wallet,
            max_transaction_amount: (supply / 1000) as u64,
            max_wallet_amount: (supply / 100) as u64,
            reflection_fee_bp: DEFAULT_REFLECTION_FEE_BP,
            marketing_fee_bp: DEFAULT_MARKETING_FEE_BP,
            burn_fee_bp: DEFAULT_BURN_FEE_BP,
            dev_fee_bp: DEFAULT_DEV_FEE_BP,
            buy_cooldown: DEFAULT_BUY_COOLDOWN,
            sell_cooldown: DEFAULT_SELL_COOLDOWN,
            transaction_cooldown: DEFAULT_TRANSACTION_COOLDOWN,
        }
    }
}

/// `pow10` grows with its exponent.
pub proof fn lemma_pow10_monotone(i: nat, j: nat)
    requires
        i <= j,
    ensures
        pow10(i) <= pow10(j),
    decreases j,
{
    if i < j {
        lemma_pow10_monotone(i, (j - 1) as nat);
    }
}

/// Ten to the power `n`, for exponents whose power fits in a `u64`.
fn pow10_u64(n: u8) -> (r: u64)
    requires
        n <= 19,
    ensures
        r == pow10(n as nat),
{
    proof {
        reveal_with_fuel(pow10, 20);
        assert(pow10(19) == 10_000_000_000_000_000_000);
    }
    let mut r: u64 = 1;
    let mut i: u8 = 0;
    while i < n
        invariant
            i <= n <= 19,
            r == pow10(i as nat),
            pow10(19) == 10_000_000_000_000_000_000,
        decreases n - i,
    {
        proof {
            lemma_pow10_monotone((i + 1) as nat, 19);
        }
        r = r * 10;
        i = i + 1;
    }
    r
}

impl TokenConfig {
    /// The announcement of this configuration's creation, for the mint
    /// created with it.
    pub fn initialized_event(&self, mint: Address) -> (r: TokenInitialized)
        ensures
            r == (TokenInitialized {
                mint,
                authority: self.authority,
                total_supply: self.total_supply,
                decimals: self.decimals,
                marketing_wallet: self.marketing_wallet,
            }),
    {
        TokenInitialized {
            mint,
            authority: self.authority,
            total_supply: self.total_supply,
            decimals: self.decimals,
            marketing_wallet: self.marketing_wallet,
        }
    }

    /// Whether the configuration meets `wf`: the invariant that creation
    /// establishes and every change keeps.
    pub fn is_well_formed(&self) -> (r: bool)
        ensures
            r == self.wf(),
    {
        if self.decimals > MAX_DECIMALS {
            return false;
        }
        let supply = total_supply_for(self.decimals);
        let fees: u64 = self.reflection_fee_bp as u64 + self.marketing_fee_bp as u64
            + self.burn_fee_bp as u64 + self.dev_fee_bp as u64;
        self.total_supply == supply && self.max_transaction_amount == supply / 1000
            && self.max_wallet_amount == supply / 100 && fees <= MAX_TOTAL_FEE_BP
            && !self.authority.is_zero() && !self.marketing_wallet.is_zero()
    }
}

/// The supply, in base units, of a token with `decimals` decimals.
pub fn total_supply_for(decimals: u8) -> (r: u64)
    requires
        decimals <= MAX_DECIMALS,
    ensures
        r == supply_for(decimals),
{
    proof {
        lemma_pow10_monotone(decimals as nat, 10);
        reveal_with_fuel(pow10, 11);
        assert(pow10(10) == 10_000_000_000);
    }
    WHOLE_TOKEN_SUPPLY * pow10_u64(decimals)
}

/// Creates the configuration of a new token: the supply and the limits
/// follow from `decimals`, the fee schedule and the cooldowns take their
/// defaults, and trading starts disabled. A zero marketing wallet is refused.
pub fn initialize(
    name: String,
    symbol: String,
    decimals: u8,
    marketing_wallet: Address,
    authority: Address,
) -> (r: Result<TokenConfig, BigBallsError>)
    requires
        decimals <= MAX_DECIMALS,
        !authority.spec_is_zero(),
    ensures
        marketing_wallet.spec_is_zero() ==> r == Err::<TokenConfig, BigBallsError>(
            BigBallsError::InvalidMarketingWallet,
        ),
        !marketing_wallet.spec_is_zero() ==> r == Ok::<TokenConfig, BigBallsError>(
            TokenConfig::spec_initial(name, symbol, decimals, marketing_wallet, authority),
        ),
        r matches Ok(c) ==> c.wf() && c.total_supply == supply_for(decimals)
            && c.max_transaction_amount == c.total_supply / 1000 && c.max_wallet_amount
            == c.total_supply / 100 && !c.trading_enabled,
{
    if marketing_wallet.is_zero() {
        return Err(BigBallsError::InvalidMarketingWallet);
    }
    let total_supply = total_supply_for(decimals);
    Ok(
        TokenConfig {
            name,
            symbol,
            decimals,
            total_supply,
            trading_enabled: false,
            authority,
            marketing_wallet,
            max_transaction_amount: total_supply / 1000,
            max_wallet_amount: total_supply / 100,
            reflection_fee_bp: DEFAULT_REFLECTION_FEE_BP,
            marketing_fee_bp: DEFAULT_MARKETING_FEE_BP,
            burn_fee_bp: DEFAULT_BURN_FEE_BP,
            dev_fee_bp: DEFAULT_DEV_FEE_BP,
            buy_cooldown: DEFAULT_BUY_COOLDOWN,
            sell_cooldown: DEFAULT_SELL_COOLDOWN,
            transaction_cooldown: DEFAULT_TRANSACTION_COOLDOWN,
        },
    )
}

/// The one authorization guard: succeeds exactly when `caller` is the
/// configuration's authority.
pub fn check_authority(config: &TokenConfig, caller: &Address) -> (r: Result<(), BigBallsError>)
    ensures
        *caller == config.authority ==> r == Ok::<(), BigBallsError>(()),
        *caller != config.authority ==> r == Err::<(), BigBallsError>(BigBallsError::Unauthorized),
{
    if caller.same_as(&config.authority) {
        Ok(())
    } else {
        Err(BigBallsError::Unauthorized)
    }
}

/// Sets the trading switch. Only the authority may do so; setting it to the
/// value it already has succeeds and is announced all the same.
pub fn set_trading_enabled(
    config: &mut TokenConfig,
    caller: &Address,
    enabled: bool,
    now: i64,
) -> (r: Result<TradingStatusChanged, BigBallsError>)
    ensures
        *caller != old(config).authority ==> r == Err::<TradingStatusChanged, BigBallsError>(
            BigBallsError::Unauthorized,
        ) && *final(config) == *old(config),
        *caller == old(config).authority ==> r == Ok::<TradingStatusChanged, BigBallsError>(
            (TradingStatusChanged { enabled, timestamp: now }),
        ) && *final(config) == (TokenConfig { trading_enabled: enabled, ..*old(config) }),
        old(config).wf() ==> final(config).wf(),
{
    match check_authority(config, caller) {
        Err(e) => Err(e),
        Ok(()) => {
            config.trading_enabled = enabled;
            Ok(TradingStatusChanged { enabled, timestamp: now })
        },
    }
}

/// Replaces all four fee rates at once. Only the authority may do so, and
/// only with rates whose sum is at most `MAX_TOTAL_FEE_BP`.
pub fn update_fees(
    config: &mut TokenConfig,
    caller: &Address,
    reflection_fee_bp: u16,
    marketing_fee_bp: u16,
    burn_fee_bp: u16,
    dev_fee_bp: u16,
    now: i64,
) -> (r: Result<FeesUpdated, BigBallsError>)
    ensures
        *caller != old(config).authority ==> r == Err::<FeesUpdated, BigBallsError>(
            BigBallsError::Unauthorized,
        ) && *final(config) == *old(config),
        *caller == old(config).authority && fee_sum(
            reflection_fee_bp,
            marketing_fee_bp,
            burn_fee_bp,
            dev_fee_bp,
        ) > MAX_TOTAL_FEE_BP ==> r == Err::<FeesUpdated, BigBallsError>(
            BigBallsError::InvalidFeeConfiguration,
        ) && *final(config) == *old(config),
        *caller == old(config).authority && fee_sum(
            reflection_fee_bp,
            marketing_fee_bp,
            burn_fee_bp,
            dev_fee_bp,
        ) <= MAX_TOTAL_FEE_BP ==> r == Ok::<FeesUpdated, BigBallsError>(
            (FeesUpdated {
                reflection_fee_bp,
                marketing_fee_bp,
                burn_fee_bp,
                dev_fee_bp,
                timestamp: now,
            }),
        ) && *final(config) == (TokenConfig {
            reflection_fee_bp,
            marketing_fee_bp,
            burn_fee_bp,
            dev_fee_bp,
            ..*old(config)
        }),
        old(config).wf() ==> final(config).wf(),
{
    match check_authority(config, caller) {
        Err(e) => Err(e),
        Ok(()) => {
            let total: u64 = reflection_fee_bp as u64 + marketing_fee_bp as u64 + burn_fee_bp as u64
                + dev_fee_bp as u64;
            if total > MAX_TOTAL_FEE_BP {
                return Err(BigBallsError::InvalidFeeConfiguration);
            }
            config.reflection_fee_bp = reflection_fee_bp;
            config.marketing_fee_bp = marketing_fee_bp;
            config.burn_fee_bp = burn_fee_bp;
            config.dev_fee_bp = dev_fee_bp;
            Ok(
                FeesUpdated {
                    reflection_fee_bp,
                    marketing_fee_bp,
                    burn_fee_bp,
                    dev_fee_bp,
                    timestamp: now,
                },
            )
        },
    }
}

} // verus!
