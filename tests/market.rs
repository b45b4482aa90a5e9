use ref_exchange::contract::Contract;
use ref_exchange::market::MarketError;

fn market(multiplier: u128, max_profit: u128, last_price: u128) -> Contract {
    Contract::new("oracle.near".to_string(), multiplier, max_profit, 0, 0, last_price)
}

#[test]
fn rebase_with_cap_rounding_to_zero_keeps_divisors() {
    let mut c = market(10000, 100, 100);
    assert_eq!(c.market.bull_total_supply, 1);
    assert_eq!(c.market.bear_total_supply, 1);
    assert_eq!(c.rebase(), Ok(true));
    assert_eq!(c.market.cached_bull_divisor, 1);
    assert_eq!(c.market.cached_bear_divisor, 1);
    assert_eq!(c.market.last_price, 200);
}

#[test]
fn buy_collects_fee_and_credits_amount() {
    let mut c = market(10000, 100, 100);
    let alice = "alice.near".to_string();
    assert_eq!(c.buy(&alice, true, 1000), Ok(1000));
    assert_eq!(c.market.fee_reserve, 2);
    assert_eq!(c.get_token_value(&alice, true), 1000);
    assert_eq!(c.get_token_value(&alice, false), 0);
    assert_eq!(c.market.bull_total_supply, 1001);
    assert_eq!(c.market.bear_total_supply, 1);
}

#[test]
fn sell_beyond_balance_faults_and_changes_nothing() {
    let mut c = market(10000, 100, 100);
    let alice = "alice.near".to_string();
    assert_eq!(c.buy(&alice, false, 50), Ok(50));
    let before = c.market;
    assert_eq!(c.sell(&alice, false, 51), Err(MarketError::ArithmeticFault));
    assert_eq!(c.get_token_value(&alice, false), 50);
    assert_eq!(c.market, before);
    let bob = "bob.near".to_string();
    assert_eq!(c.sell(&bob, true, 1), Err(MarketError::ArithmeticFault));
    assert_eq!(c.get_token_value(&bob, true), 0);
}

#[test]
fn unknown_account_has_zero_balances() {
    let c = market(10000, 100, 100);
    let carol = "carol.near".to_string();
    assert_eq!(c.get_token_value(&carol, true), 0);
    assert_eq!(c.get_token_value(&carol, false), 0);
}

#[test]
fn sell_takes_raw_amount_off() {
    let mut c = market(10000, 100, 100);
    let alice = "alice.near".to_string();
    assert_eq!(c.buy(&alice, true, 1000), Ok(1000));
    assert_eq!(c.sell(&alice, true, 400), Ok(600));
    assert_eq!(c.market.fee_reserve, 2);
    assert_eq!(c.sell(&alice, true, 600), Ok(0));
    assert_eq!(c.market.fee_reserve, 3);
    assert_eq!(c.get_token_value(&alice, true), 0);
    assert_eq!(c.market.bull_total_supply, 1);
    assert_eq!(c.market.last_price, 400);
}

#[test]
fn buy_scales_held_balance_by_divisor() {
    let mut c = market(10000, 0, 100);
    let alice = "alice.near".to_string();
    c.bulls.set(&alice, 600);
    c.market.bull_total_supply = 2000;
    c.market.cached_bull_divisor = 2;
    c.market.bear_total_supply = 1000;
    assert_eq!(c.buy(&alice, true, 100), Ok(400));
    assert_eq!(c.market.cached_bull_divisor, 2);
    assert_eq!(c.market.bull_total_supply, 1800);
    assert_eq!(c.get_token_value(&alice, true), 400);
}

#[test]
fn collect_fees_truncates() {
    let mut c = market(10000, 100, 100);
    assert_eq!(c.collect_fees(1000), Ok(2));
    assert_eq!(c.collect_fees(499), Ok(0));
    assert_eq!(c.collect_fees(500), Ok(1));
    assert_eq!(c.market.fee_reserve, 3);
    assert_eq!(c.collect_fees(u128::MAX), Err(MarketError::ArithmeticFault));
    assert_eq!(c.market.fee_reserve, 3);
}

#[test]
fn next_divisor_rounds_up_at_one_digit() {
    let c = market(10000, 100, 100);
    assert_eq!(c.get_next_divisor(10, 3, 7), Ok(4));
    assert_eq!(c.get_next_divisor(100, 3, 7), Ok(34));
    assert_eq!(c.get_next_divisor(10, 10, 7), Ok(1));
    assert_eq!(c.get_next_divisor(10, 100, 7), Ok(1));
}

#[test]
fn next_divisor_falls_back_when_zero() {
    let c = market(10000, 100, 100);
    assert_eq!(c.get_next_divisor(0, 5, 7), Ok(7));
    assert_eq!(c.get_next_divisor(1, 11, 3), Ok(3));
}

#[test]
fn next_divisor_faults() {
    let c = market(10000, 100, 100);
    assert_eq!(c.get_next_divisor(5, 0, 1), Err(MarketError::DivisionByZeroFault));
    assert_eq!(c.get_next_divisor(u128::MAX / 5, 1, 1), Err(MarketError::ArithmeticFault));
    let edge = u128::MAX / 10;
    assert_eq!(c.get_next_divisor(edge, 1, 1), Err(MarketError::ArithmeticFault));
    assert_eq!(c.get_next_divisor(edge, 2, 1), Ok((edge * 10 / 2 + 9) / 10));
}

#[test]
fn divisors_move_value_to_winning_side() {
    let mut c = market(10000, 5000, 100);
    c.market.bull_total_supply = 10000;
    c.market.bear_total_supply = 10000;
    assert_eq!(c.get_divisors(100, 200), Ok((1, 2)));
    assert_eq!(c.get_divisors(200, 100), Ok((2, 1)));
    assert_eq!(c.get_divisors(100, 100), Ok((1, 1)));
}

#[test]
fn divisors_fault_when_cap_exceeds_losing_side() {
    let mut c = market(30000, 20000, 100);
    c.market.bull_total_supply = 10;
    c.market.bear_total_supply = 10;
    assert_eq!(c.get_divisors(100, 200), Err(MarketError::ArithmeticFault));
    assert_eq!(c.get_divisors(200, 100), Err(MarketError::ArithmeticFault));
}

#[test]
fn rebase_faults_on_zero_price() {
    let mut c = market(10000, 100, 0);
    assert_eq!(c.rebase(), Err(MarketError::DivisionByZeroFault));
    assert_eq!(c.market.last_price, 0);
    let alice = "alice.near".to_string();
    assert_eq!(c.buy(&alice, true, 10), Err(MarketError::DivisionByZeroFault));
    assert_eq!(c.get_token_value(&alice, true), 0);
    assert_eq!(c.market.fee_reserve, 0);
}

#[test]
fn rebase_faults_on_price_overflow() {
    let mut c = market(10000, 100, u128::MAX - 50);
    assert_eq!(c.rebase(), Err(MarketError::ArithmeticFault));
    assert_eq!(c.market.last_price, u128::MAX - 50);
}

#[test]
fn buy_then_read_round_trip() {
    let mut c = market(10000, 100, 100);
    let dave = "dave.near".to_string();
    assert_eq!(c.buy(&dave, false, 12345), Ok(12345));
    assert_eq!(c.get_token_value(&dave, false), 12345);
}

#[test]
fn fee_reserve_grows_by_each_trade_fee() {
    let mut c = market(10000, 100, 100);
    let erin = "erin.near".to_string();
    assert_eq!(c.buy(&erin, true, 5000), Ok(5000));
    assert_eq!(c.market.fee_reserve, 10);
    assert_eq!(c.sell(&erin, true, 2500), Ok(2500));
    assert_eq!(c.market.fee_reserve, 15);
}

#[test]
fn new_sets_defaults() {
    let c = Contract::new("oracle.near".to_string(), 3, 4, 5, 6, 7);
    assert_eq!(c.market.fee_basis_points, 20);
    assert_eq!(c.market.basis_points_divisor, 10000);
    assert_eq!(c.market.initial_rebase_divisor, 10_000_000_000);
    assert_eq!(c.market.multiplier_basis_points, 3);
    assert_eq!(c.market.max_profit_basis_points, 4);
    assert_eq!(c.market.funding_divisor, 5);
    assert_eq!(c.market.app_fee_basis_points, 6);
    assert_eq!(c.market.last_price, 7);
    assert_eq!(c.price_feed, "oracle.near");
}

#[test]
fn raw_totals_track_ledger_sums() {
    let mut c = market(10000, 100, 100);
    let alice = "alice.near".to_string();
    let bob = "bob.near".to_string();
    assert_eq!(c.buy(&alice, true, 300), Ok(300));
    assert_eq!(c.buy(&bob, true, 700), Ok(700));
    assert_eq!(c.buy(&bob, false, 90), Ok(90));
    assert_eq!(c.sell(&alice, true, 100), Ok(200));
    assert_eq!(c.market.bull_total_supply, 1 + 200 + 700);
    assert_eq!(c.market.bear_total_supply, 1 + 90);
}
