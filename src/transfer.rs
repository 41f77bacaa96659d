use vstd::prelude::*;
use crate::address::Address;
use crate::config::{TokenConfig, BASIS_POINTS};
use crate::error::BigBallsError;
use crate::events::{FeesCollected, TransferExecuted};
use crate::ledger::{CooldownLedger, HolderState};

verus! {

/// The share of `amount` that a rate of `bp` basis points takes, rounded
/// down.
pub open spec fn fee_share(amount: int, bp: int) -> int {
    amount * bp / BASIS_POINTS as int
}

/// Whether `holder`'s cooldown has run out at time `now`.
pub open spec fn cooldown_elapsed(config: TokenConfig, holder: HolderState, now: i64) -> bool {
    now >= holder.last_transaction + config.transaction_cooldown
}

/// An accepted transfer, before any value has moved: the gross amount, what
/// reaches the recipient, and the fee shares. Of the fees, only the
/// marketing share is moved; the others are computed and reported.
#[derive(Clone, Copy, Debug, PartialEq, Eq, Structural)]
pub struct TransferPlan {
    pub amount: u64,
    pub net_amount: u64,
    pub total_fee: u64,
    pub reflection_amount: u64,
    pub marketing_amount: u64,
    pub burn_amount: u64,
    pub dev_amount: u64,
    pub timestamp: i64,
}

impl TransferPlan {
    /// The plan of a transfer of `amount` at time `now` under `config`'s fees.
    pub open spec fn spec_new(config: TokenConfig, amount: u64, now: i64) -> TransferPlan {
        let total_fee = fee_share(amount as int, config.total_fee_bp());
        TransferPlan {
            amount,
            net_amount: (amount - total_fee) as u64,
            total_fee: total_fee as u64,
            reflection_amount: fee_share(amount as int, config.reflection_fee_bp as int) as u64,
            marketing_amount: fee_share(amount as int, config.marketing_fee_bp as int) as u64,
            burn_amount: fee_share(amount as int, config.burn_fee_bp as int) as u64,
            dev_amount: fee_share(amount as int, config.dev_fee_bp as int) as u64,
            timestamp: now,
        }
    }

    /// Whether the marketing share is moved to the marketing wallet.
    pub fn moves_marketing_fee(&self) -> (r: bool)
        ensures
            r == (self.marketing_amount > 0),
    {
        self.marketing_amount > 0
    }
}

/// The outcome of a transfer request, checked in order: the trading switch,
/// the size limit, then the sender's cooldown.
pub open spec fn transfer_outcome(
    config: TokenConfig,
    holder: HolderState,
    amount: u64,
    now: i64,
) -> Result<TransferPlan, BigBallsError> {
    if !config.trading_enabled {
        Err(BigBallsError::TradingNotEnabled)
    } else if amount > config.max_transaction_amount {
        Err(BigBallsError::ExceedsMaxTransaction)
    } else if !cooldown_elapsed(config, holder, now) {
        Err(BigBallsError::CooldownNotElapsed)
    } else {
        Ok(TransferPlan::spec_new(config, amount, now))
    }
}

/// The sender's record after an accepted transfer of `amount` at `now`.
pub open spec fn settled(holder: HolderState, amount: u64, now: i64) -> HolderState {
    HolderState {
        last_transaction: now,
        total_transactions: (holder.total_transactions + 1) as u64,
        total_amount: (holder.total_amount + amount) as u64,
        ..holder
    }
}

/// What an accepted and settled transfer announces.
#[derive(Clone, Copy, Debug, PartialEq, Eq)]
pub struct TransferReceipt {
    pub executed: TransferExecuted,
    pub fees: FeesCollected,
}

/// A fee share is never more than the amount it is taken from.
pub proof fn lemma_fee_share_bounded(amount: int, bp: int)
    requires
        0 <= amount,
        0 <= bp <= BASIS_POINTS,
    ensures
        0 <= fee_share(amount, bp) <= amount,
{
    assert(0 <= amount * bp <= amount * BASIS_POINTS) by (nonlinear_arith)
        requires
            0 <= amount,
            0 <= bp <= BASIS_POINTS,
    ;
}

/// Splitting a rate in two never takes more, in the two rounded-down
/// shares, than the whole rate takes in one.
pub proof fn lemma_fee_share_split(amount: int, x: int, y: int)
    requires
        0 <= amount,
        0 <= x,
        0 <= y,
    ensures
        fee_share(amount, x) + fee_share(amount, y) <= fee_share(amount, x + y),
{
    let p = amount * x;
    let q = amount * y;
    assert(amount * (x + y) == p + q) by (nonlinear_arith)
        requires
            p == amount * x,
            q == amount * y,
    ;
    assert(p >= 0 && q >= 0) by (nonlinear_arith)
        requires
            0 <= amount,
            0 <= x,
            0 <= y,
            p == amount * x,
            q == amount * y,
    ;
    assert(p / 10000 + q / 10000 <= (p + q) / 10000);
}

/// The split of a transfer is consistent: the net amount and the total fee
/// make up the gross amount, and the four shares, each rounded down on its
/// own, add up to at most the total fee (the rounding favours the sender).
pub proof fn lemma_fee_split_consistent(config: TokenConfig, amount: u64, now: i64)
    requires
        config.wf(),
    ensures
        ({
            let p = TransferPlan::spec_new(config, amount, now);
            &&& p.net_amount + p.total_fee == amount
            &&& p.total_fee <= amount
            &&& p.reflection_amount + p.marketing_amount + p.burn_amount + p.dev_amount
                <= p.total_fee
        }),
{
    let a = amount as int;
    let r = config.reflection_fee_bp as int;
    let m = config.marketing_fee_bp as int;
    let b = config.burn_fee_bp as int;
    let d = config.dev_fee_bp as int;
    lemma_fee_share_bounded(a, r + m + b + d);
    lemma_fee_share_bounded(a, r);
    lemma_fee_share_bounded(a, m);
    lemma_fee_share_bounded(a, b);
    lemma_fee_share_bounded(a, d);
    lemma_fee_share_split(a, r, m);
    lemma_fee_share_split(a, r + m, b);
    lemma_fee_share_split(a, r + m + b, d);
}

/// A holder who has just transferred is refused with `CooldownNotElapsed` on
/// any further transfer that comes before the cooldown has run out, as long
/// as trading is on and the amount is within the limit (the two checks that
/// come first).
pub proof fn lemma_repeat_within_cooldown_refused(
    config: TokenConfig,
    before: CooldownLedger,
    after: CooldownLedger,
    from: Address,
    plan: TransferPlan,
    amount: u64,
    now: i64,
)
    requires
        after@ == before@.insert(
            from,
            settled(before.spec_record(from), plan.amount, plan.timestamp),
        ),
        config.trading_enabled,
        amount <= config.max_transaction_amount,
        now < plan.timestamp + config.transaction_cooldown,
    ensures
        after.spec_record(from) == settled(before.spec_record(from), plan.amount, plan.timestamp),
        transfer_outcome(config, after.spec_record(from), amount, now) == Err::<
            TransferPlan,
            BigBallsError,
        >(BigBallsError::CooldownNotElapsed),
{
    assert(after@.contains_key(from));
}

/// `amount * bp / 10000`, computed wide enough that it cannot overflow.
fn compute_fee(amount: u64, bp: u64) -> (r: u64)
    requires
        bp <= BASIS_POINTS,
    ensures
        r == fee_share(amount as int, bp as int),
{
    proof {
        lemma_fee_share_bounded(amount as int, bp as int);
        assert((amount as int) * (bp as int) <= u64::MAX as int * BASIS_POINTS) by (nonlinear_arith)
            requires
                bp <= BASIS_POINTS,
        ;
    }
    let product: u128 = (amount as u128) * (bp as u128);
    (product / (BASIS_POINTS as u128)) as u64
}

/// Checks a transfer of `amount` from `from` at time `now` and, if it is
/// accepted, computes its split. Nothing is changed: the ledger is read only,
/// so a refused transfer neither creates nor alters a record.
pub fn transfer(
    config: &TokenConfig,
    ledger: &CooldownLedger,
    from: &Address,
    amount: u64,
    now: i64,
) -> (r: Result<TransferPlan, BigBallsError>)
    requires
        config.wf(),
        ledger.wf(),
    ensures
        r == transfer_outcome(*config, ledger.spec_record(*from), amount, now),
        !config.trading_enabled ==> r == Err::<TransferPlan, BigBallsError>(
            BigBallsError::TradingNotEnabled,
        ),
        config.trading_enabled && amount > config.max_transaction_amount ==> r == Err::<
            TransferPlan,
            BigBallsError,
        >(BigBallsError::ExceedsMaxTransaction),
{
    if !config.trading_enabled {
        return Err(BigBallsError::TradingNotEnabled);
    }
    if amount > config.max_transaction_amount {
        return Err(BigBallsError::ExceedsMaxTransaction);
    }
    let holder = ledger.record(from);
    let ready_at: i128 = holder.last_transaction as i128 + config.transaction_cooldown as i128;
    if (now as i128) < ready_at {
        return Err(BigBallsError::CooldownNotElapsed);
    }
    let total_fee_bp: u64 = config.reflection_fee_bp as u64 + config.marketing_fee_bp as u64
        + config.burn_fee_bp as u64 + config.dev_fee_bp as u64;
    let total_fee = compute_fee(amount, total_fee_bp);
    proof {
        lemma_fee_share_bounded(amount as int, total_fee_bp as int);
    }
    let reflection_amount = compute_fee(amount, config.reflection_fee_bp as u64);
    let marketing_amount = compute_fee(amount, config.marketing_fee_bp as u64);
    let burn_amount = compute_fee(amount, config.burn_fee_bp as u64);
    let dev_amount = compute_fee(amount, config.dev_fee_bp as u64);
    Ok(
        TransferPlan {
            amount,
            net_amount: amount - total_fee,
            total_fee,
            reflection_amount,
            marketing_amount,
            burn_amount,
            dev_amount,
            timestamp: now,
        },
    )
}

/// Whether the sender's counters can take one more transfer of the plan's
/// amount without leaving the range of a `u64`.
pub fn can_settle(ledger: &CooldownLedger, from: &Address, plan: &TransferPlan) -> (r: bool)
    requires
        ledger.wf(),
    ensures
        r == (ledger.spec_record(*from).total_transactions < u64::MAX
            && ledger.spec_record(*from).total_amount + plan.amount <= u64::MAX),
{
    let holder = ledger.record(from);
    holder.total_transactions < u64::MAX && holder.total_amount <= u64::MAX - plan.amount
}

/// Records an accepted transfer whose value movements have all succeeded:
/// the sender's record takes the plan's time, one more transfer and the
/// gross amount. Returns what the transfer announces.
pub fn settle_transfer(
    ledger: &mut CooldownLedger,
    from: &Address,
    to: &Address,
    plan: &TransferPlan,
) -> (r: TransferReceipt)
    requires
        old(ledger).wf(),
        old(ledger).spec_record(*from).total_transactions < u64::MAX,
        old(ledger).spec_record(*from).total_amount + plan.amount <= u64::MAX,
    ensures
        final(ledger).wf(),
        final(ledger)@ == old(ledger)@.insert(
            *from,
            settled(old(ledger).spec_record(*from), plan.amount, plan.timestamp),
        ),
        r.executed == (TransferExecuted {
            from: *from,
            to: *to,
            amount: plan.net_amount,
            timestamp: plan.timestamp,
        }),
        r.fees == (FeesCollected {
            reflection_amount: plan.reflection_amount,
            marketing_amount: plan.marketing_amount,
            burn_amount: plan.burn_amount,
            dev_amount: plan.dev_amount,
            timestamp: plan.timestamp,
        }),
{
    let holder = ledger.record(from);
    let next = HolderState {
        last_transaction: plan.timestamp,
        total_transactions: holder.total_transactions + 1,
        total_amount: holder.total_amount + plan.amount,
        ..holder
    };
    ledger.put(*from, next);
    TransferReceipt {
        executed: TransferExecuted {
            from: *from,
            to: *to,
            amount: plan.net_amount,
            timestamp: plan.timestamp,
        },
        fees: FeesCollected {
            reflection_amount: plan.reflection_amount,
            marketing_amount: plan.marketing_amount,
            burn_amount: plan.burn_amount,
            dev_amount: plan.dev_amount,
            timestamp: plan.timestamp,
        },
    }
}

} // verus!
