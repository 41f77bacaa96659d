use bigballs_token::{
    can_settle, initialize, set_trading_enabled, settle_transfer, transfer, update_fees, Address, BigBallsError,
    CooldownLedger, HolderState, TokenConfig,
};

fn addr(b: u8) -> Address {
    Address::new([b; 32])
}

fn authority() -> Address {
    addr(1)
}

fn marketing() -> Address {
    addr(2)
}

fn new_config() -> TokenConfig {
    initialize("Big Balls".to_string(), "BIGBALLS".to_string(), 9, marketing(), authority()).unwrap()
}

fn trading_config() -> TokenConfig {
    let mut c = new_config();
    set_trading_enabled(&mut c, &authority(), true, 1_000).unwrap();
    c
}

fn fees(c: &TokenConfig) -> (u16, u16, u16, u16) {
    (c.reflection_fee_bp, c.marketing_fee_bp, c.burn_fee_bp, c.dev_fee_bp)
}

#[test]
fn test_initialize() {
    let c = new_config();
    assert_eq!(c.name, "Big Balls");
    assert_eq!(c.symbol, "BIGBALLS");
    assert_eq!(c.decimals, 9);
    assert_eq!(c.marketing_wallet, marketing());
    assert_eq!(c.authority, authority());
    assert_eq!(c.trading_enabled, false);
    assert_eq!(c.reflection_fee_bp, 200);
    assert_eq!(c.marketing_fee_bp, 150);
    assert_eq!(c.burn_fee_bp, 100);
    assert_eq!(c.dev_fee_bp, 50);
    assert_eq!(c.buy_cooldown, 300);
    assert_eq!(c.sell_cooldown, 1800);
    assert_eq!(c.transaction_cooldown, 60);
}

#[test]
fn initialize_derives_supply_and_limits() {
    let c = new_config();
    assert_eq!(c.total_supply, 1_000_000_000_000_000_000);
    assert_eq!(c.max_transaction_amount, 1_000_000_000_000_000);
    assert_eq!(c.max_wallet_amount, 10_000_000_000_000_000);
}

#[test]
fn initialize_with_no_decimals() {
    let c = initialize("A".to_string(), "B".to_string(), 0, marketing(), authority()).unwrap();
    assert_eq!(c.total_supply, 1_000_000_000);
    assert_eq!(c.max_transaction_amount, 1_000_000);
    assert_eq!(c.max_wallet_amount, 10_000_000);
}

#[test]
fn initialize_with_largest_decimals() {
    let c = initialize("A".to_string(), "B".to_string(), 10, marketing(), authority()).unwrap();
    assert_eq!(c.total_supply, 10_000_000_000_000_000_000);
    assert_eq!(c.max_transaction_amount, 10_000_000_000_000_000);
    assert_eq!(c.max_wallet_amount, 100_000_000_000_000_000);
}

#[test]
fn test_initialize_invalid_marketing_wallet() {
    let r = initialize("Big Balls".to_string(), "BIGBALLS".to_string(), 9, Address::zero(), authority());
    assert_eq!(r.unwrap_err(), BigBallsError::InvalidMarketingWallet);
}

#[test]
fn address_zero_detection() {
    assert!(Address::zero().is_zero());
    let mut b = [0u8; 32];
    b[31] = 1;
    assert!(!Address::new(b).is_zero());
    assert!(Address::new(b) != Address::zero());
    assert!(Address::new(b) == Address::new(b));
}

#[test]
fn test_trading_controls() {
    let mut c = new_config();
    let e = set_trading_enabled(&mut c, &authority(), true, 42).unwrap();
    assert!(c.trading_enabled);
    assert!(e.enabled);
    assert_eq!(e.timestamp, 42);
    let e = set_trading_enabled(&mut c, &authority(), false, 43).unwrap();
    assert!(!c.trading_enabled);
    assert!(!e.enabled);
}

#[test]
fn trading_switch_is_idempotent() {
    let mut c = new_config();
    set_trading_enabled(&mut c, &authority(), true, 1).unwrap();
    let e = set_trading_enabled(&mut c, &authority(), true, 2).unwrap();
    assert!(c.trading_enabled);
    assert!(e.enabled);
    assert_eq!(e.timestamp, 2);
}

#[test]
fn trading_switch_refuses_other_callers() {
    let mut c = new_config();
    let r = set_trading_enabled(&mut c, &addr(9), true, 1);
    assert_eq!(r.unwrap_err(), BigBallsError::Unauthorized);
    assert!(!c.trading_enabled);
}

#[test]
fn test_update_fees() {
    let mut c = new_config();
    let e = update_fees(&mut c, &authority(), 300, 100, 50, 50, 7).unwrap();
    assert_eq!(fees(&c), (300, 100, 50, 50));
    assert_eq!((e.reflection_fee_bp, e.marketing_fee_bp, e.burn_fee_bp, e.dev_fee_bp), (300, 100, 50, 50));
    assert_eq!(e.timestamp, 7);
    let r = update_fees(&mut c, &authority(), 500, 300, 200, 100, 8);
    assert_eq!(r.unwrap_err(), BigBallsError::InvalidFeeConfiguration);
    assert_eq!(fees(&c), (300, 100, 50, 50));
}

#[test]
fn fee_schedule_scenario() {
    let mut c = new_config();
    update_fees(&mut c, &authority(), 300, 100, 200, 100, 1).unwrap();
    assert_eq!(fees(&c), (300, 100, 200, 100));
    let r = update_fees(&mut c, &authority(), 500, 300, 200, 100, 2);
    assert_eq!(r.unwrap_err(), BigBallsError::InvalidFeeConfiguration);
    assert_eq!(fees(&c), (300, 100, 200, 100));
}

#[test]
fn fee_ceiling_is_inclusive() {
    let mut c = new_config();
    assert!(update_fees(&mut c, &authority(), 1000, 0, 0, 0, 1).is_ok());
    assert_eq!(fees(&c), (1000, 0, 0, 0));
    let r = update_fees(&mut c, &authority(), 1000, 0, 0, 1, 1);
    assert_eq!(r.unwrap_err(), BigBallsError::InvalidFeeConfiguration);
    assert_eq!(fees(&c), (1000, 0, 0, 0));
}

#[test]
fn huge_fee_rates_are_refused_not_wrapped() {
    let mut c = new_config();
    let r = update_fees(&mut c, &authority(), u16::MAX, u16::MAX, 2, 0, 1);
    assert_eq!(r.unwrap_err(), BigBallsError::InvalidFeeConfiguration);
    assert_eq!(fees(&c), (200, 150, 100, 50));
}

#[test]
fn fee_update_refuses_other_callers() {
    let mut c = new_config();
    let r = update_fees(&mut c, &addr(9), 10, 10, 10, 10, 1);
    assert_eq!(r.unwrap_err(), BigBallsError::Unauthorized);
    assert_eq!(fees(&c), (200, 150, 100, 50));
}

#[test]
fn test_transfer_with_trading_disabled() {
    let c = new_config();
    let ledger = CooldownLedger::new();
    let r = transfer(&c, &ledger, &addr(5), 1_000_000, 1_000);
    assert_eq!(r.unwrap_err(), BigBallsError::TradingNotEnabled);
    assert!(ledger.get(&addr(5)).is_none());
}

#[test]
fn test_transfer_limits() {
    let c = trading_config();
    let ledger = CooldownLedger::new();
    let max = c.max_transaction_amount;
    let r = transfer(&c, &ledger, &addr(5), max + 1, 1_000);
    assert_eq!(r.unwrap_err(), BigBallsError::ExceedsMaxTransaction);
    assert!(transfer(&c, &ledger, &addr(5), max, 1_000).is_ok());
}

#[test]
fn test_fee_calculations() {
    let c = trading_config();
    let ledger = CooldownLedger::new();
    let p = transfer(&c, &ledger, &addr(5), 1_000_000, 1_000).unwrap();
    assert_eq!(p.amount, 1_000_000);
    assert_eq!(p.total_fee, 50_000);
    assert_eq!(p.net_amount, 950_000);
    assert_eq!(p.reflection_amount, 20_000);
    assert_eq!(p.marketing_amount, 15_000);
    assert_eq!(p.burn_amount, 10_000);
    assert_eq!(p.dev_amount, 5_000);
    assert!(p.moves_marketing_fee());
}

#[test]
fn fee_shares_round_down_per_component() {
    let c = trading_config();
    let ledger = CooldownLedger::new();
    let p = transfer(&c, &ledger, &addr(5), 100, 1_000).unwrap();
    assert_eq!(p.total_fee, 5);
    assert_eq!(p.net_amount, 95);
    assert_eq!((p.reflection_amount, p.marketing_amount, p.burn_amount, p.dev_amount), (2, 1, 1, 0));
    let sum = p.reflection_amount + p.marketing_amount + p.burn_amount + p.dev_amount;
    assert!(sum <= p.total_fee);
}

#[test]
fn tiny_transfer_moves_no_marketing_fee() {
    let c = trading_config();
    let ledger = CooldownLedger::new();
    let p = transfer(&c, &ledger, &addr(5), 66, 1_000).unwrap();
    assert_eq!(p.marketing_amount, 0);
    assert!(!p.moves_marketing_fee());
    assert_eq!(p.total_fee, 3);
    assert_eq!(p.net_amount, 63);
}

#[test]
fn zero_fees_move_everything() {
    let mut c = trading_config();
    update_fees(&mut c, &authority(), 0, 0, 0, 0, 1).unwrap();
    let ledger = CooldownLedger::new();
    let p = transfer(&c, &ledger, &addr(5), 12_345, 1_000).unwrap();
    assert_eq!(p.total_fee, 0);
    assert_eq!(p.net_amount, 12_345);
}

#[test]
fn largest_transfer_at_highest_fees() {
    let mut c = initialize("A".to_string(), "B".to_string(), 10, marketing(), authority()).unwrap();
    set_trading_enabled(&mut c, &authority(), true, 1).unwrap();
    update_fees(&mut c, &authority(), 250, 250, 250, 250, 1).unwrap();
    let ledger = CooldownLedger::new();
    let amount = c.max_transaction_amount;
    let p = transfer(&c, &ledger, &addr(5), amount, 1_000).unwrap();
    assert_eq!(p.total_fee, 1_000_000_000_000_000);
    assert_eq!(p.net_amount, 9_000_000_000_000_000);
    assert_eq!(p.marketing_amount, 250_000_000_000_000);
}

#[test]
fn test_holder_state() {
    let c = trading_config();
    let mut ledger = CooldownLedger::new();
    let holder = addr(5);
    let to = addr(6);
    let p = transfer(&c, &ledger, &holder, 1_000_000, 5_000).unwrap();
    let receipt = settle_transfer(&mut ledger, &holder, &to, &p);
    let s = ledger.get(&holder).unwrap();
    assert_eq!(s.total_transactions, 1);
    assert_eq!(s.total_amount, 1_000_000);
    assert_eq!(s.last_transaction, 5_000);
    assert_eq!(s.last_reflection_claim, 0);
    assert_eq!(receipt.executed.from, holder);
    assert_eq!(receipt.executed.to, to);
    assert_eq!(receipt.executed.amount, 950_000);
    assert_eq!(receipt.executed.timestamp, 5_000);
    assert_eq!(receipt.fees.marketing_amount, 15_000);
    assert_eq!(receipt.fees.reflection_amount, 20_000);
    assert_eq!(receipt.fees.burn_amount, 10_000);
    assert_eq!(receipt.fees.dev_amount, 5_000);
    assert!(ledger.get(&to).is_none());
}

#[test]
fn repeat_transfer_within_cooldown_is_refused() {
    let c = trading_config();
    let mut ledger = CooldownLedger::new();
    let holder = addr(5);
    let p = transfer(&c, &ledger, &holder, 1_000_000, 5_000).unwrap();
    settle_transfer(&mut ledger, &holder, &addr(6), &p);
    let before = ledger.get(&holder).unwrap();
    let r = transfer(&c, &ledger, &holder, 1, 5_000);
    assert_eq!(r.unwrap_err(), BigBallsError::CooldownNotElapsed);
    let r = transfer(&c, &ledger, &holder, 1, 5_059);
    assert_eq!(r.unwrap_err(), BigBallsError::CooldownNotElapsed);
    assert_eq!(ledger.get(&holder).unwrap(), before);
    assert!(transfer(&c, &ledger, &holder, 1, 5_060).is_ok());
}

#[test]
fn test_concurrent_transfers() {
    let c = trading_config();
    let mut ledger = CooldownLedger::new();
    let a = addr(5);
    let b = addr(7);
    let pa = transfer(&c, &ledger, &a, 1_000_000, 5_000).unwrap();
    let pb = transfer(&c, &ledger, &b, 2_000_000, 5_000).unwrap();
    settle_transfer(&mut ledger, &a, &addr(6), &pa);
    settle_transfer(&mut ledger, &b, &addr(6), &pb);
    assert_eq!(ledger.get(&a).unwrap().total_amount, 1_000_000);
    assert_eq!(ledger.get(&b).unwrap().total_amount, 2_000_000);
    let pa2 = transfer(&c, &ledger, &a, 500, 5_100).unwrap();
    settle_transfer(&mut ledger, &a, &addr(6), &pa2);
    let sa = ledger.get(&a).unwrap();
    assert_eq!(sa.total_transactions, 2);
    assert_eq!(sa.total_amount, 1_000_500);
    assert_eq!(sa.last_transaction, 5_100);
    assert_eq!(ledger.get(&b).unwrap().total_transactions, 1);
}

#[test]
fn end_to_end_default_split() {
    let mut c = initialize("Big Balls".to_string(), "BIGBALLS".to_string(), 9, marketing(), authority()).unwrap();
    set_trading_enabled(&mut c, &authority(), true, 10).unwrap();
    let mut ledger = CooldownLedger::new();
    let h = addr(5);
    let p = transfer(&c, &ledger, &h, 1_000_000, 100).unwrap();
    let receipt = settle_transfer(&mut ledger, &h, &addr(6), &p);
    let s = ledger.record(&h);
    assert_eq!(s.total_transactions, 1);
    assert_eq!(s.total_amount, 1_000_000);
    assert_eq!(receipt.executed.amount, 950_000);
    assert_eq!(p.marketing_amount, 15_000);
}

#[test]
fn unknown_holder_has_empty_record() {
    let ledger = CooldownLedger::new();
    assert_eq!(ledger.record(&addr(3)), HolderState::empty());
    assert!(ledger.get(&addr(3)).is_none());
}

#[test]
fn ledger_put_replaces_record() {
    let mut ledger = CooldownLedger::new();
    let s1 = HolderState { last_transaction: 1, total_transactions: 1, total_amount: 5, last_reflection_claim: 0 };
    let s2 = HolderState { last_transaction: 2, total_transactions: 2, total_amount: 9, last_reflection_claim: 0 };
    ledger.put(addr(3), s1);
    ledger.put(addr(4), s1);
    ledger.put(addr(3), s2);
    assert_eq!(ledger.get(&addr(3)), Some(s2));
    assert_eq!(ledger.get(&addr(4)), Some(s1));
}

#[test]
fn initialized_event_carries_config() {
    let c = new_config();
    let e = c.initialized_event(addr(8));
    assert_eq!(e.mint, addr(8));
    assert_eq!(e.authority, authority());
    assert_eq!(e.total_supply, 1_000_000_000_000_000_000);
    assert_eq!(e.decimals, 9);
    assert_eq!(e.marketing_wallet, marketing());
}

#[test]
fn well_formedness_check() {
    let mut c = new_config();
    assert!(c.is_well_formed());
    update_fees(&mut c, &authority(), 1, 2, 3, 4, 1).unwrap();
    assert!(c.is_well_formed());
    let mut bad = c.clone();
    bad.dev_fee_bp = 1000;
    assert!(!bad.is_well_formed());
    let mut bad = c.clone();
    bad.max_transaction_amount += 1;
    assert!(!bad.is_well_formed());
    let mut bad = c.clone();
    bad.marketing_wallet = Address::zero();
    assert!(!bad.is_well_formed());
}

#[test]
fn settle_overflow_is_detected() {
    let c = trading_config();
    let mut ledger = CooldownLedger::new();
    let holder = addr(5);
    let p = transfer(&c, &ledger, &holder, 10, 1_000).unwrap();
    assert!(can_settle(&ledger, &holder, &p));
    ledger.put(holder, HolderState { last_transaction: 0, total_transactions: 3, total_amount: u64::MAX - 5, last_reflection_claim: 0 });
    assert!(!can_settle(&ledger, &holder, &p));
    ledger.put(holder, HolderState { last_transaction: 0, total_transactions: u64::MAX, total_amount: 0, last_reflection_claim: 0 });
    assert!(!can_settle(&ledger, &holder, &p));
}
