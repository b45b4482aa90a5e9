//! Facts that hold of every market state and every trade.
use vstd::prelude::*;

use crate::contract::{buy_outcome, sell_outcome, Contract};
use crate::ledger::balance_in;
use crate::market::{
    fee_of, max_profit_of, next_divisor_of, reference_supply, BASIS_POINTS_DIVISOR, Market,
    MarketError,
};

verus! {

/// A new divisor computed for a positive effective total is never 0 when the
/// previous divisor is not; where the rounded quotient is 0 the previous
/// divisor is kept unchanged.
pub proof fn lemma_divisor_floor(raw: u128, next: u128, fallback: u128)
    requires
        next > 0,
        fallback >= 1,
    ensures
        next_divisor_of(raw as int, next as int, fallback) is Ok ==> next_divisor_of(
            raw as int,
            next as int,
            fallback,
        )->Ok_0 >= 1,
        raw * 10 < next ==> next_divisor_of(raw as int, next as int, fallback) == Ok::<
            u128,
            MarketError,
        >(fallback),
{
    if raw * 10 < next {
        let scaled = raw * 10;
        assert(scaled / (next as int) == 0) by (nonlinear_arith)
            requires 0 <= scaled < next;
    }
}

/// The value moved by a rebase never exceeds the cap taken of the reference
/// supply.
pub proof fn lemma_profit_capped(m: Market, last_price: u128, next_price: u128)
    ensures
        m.profit(last_price as int, next_price as int) <= max_profit_of(
            reference_supply(m.total_bulls(), m.total_bears()),
            m.max_profit_basis_points as int,
        ),
{
}

/// With a cap of at most one whole reference supply, the value moved is at
/// most the reference supply, which is at most either side's effective
/// supply: neither side goes negative, whichever way the price moves.
pub proof fn lemma_transfer_safe(m: Market, last_price: u128, next_price: u128)
    requires
        m.wf(),
        m.max_profit_basis_points <= BASIS_POINTS_DIVISOR,
        last_price > 0,
    ensures
        0 <= m.profit(last_price as int, next_price as int),
        m.profit(last_price as int, next_price as int) <= reference_supply(m.total_bulls(), m.total_bears()),
        reference_supply(m.total_bulls(), m.total_bears()) <= m.total_bulls(),
        reference_supply(m.total_bulls(), m.total_bears()) <= m.total_bears(),
        m.total_bulls() - m.profit(last_price as int, next_price as int) >= 0,
        m.total_bears() - m.profit(last_price as int, next_price as int) >= 0,
{
    let r = reference_supply(m.total_bulls(), m.total_bears());
    let bps = m.max_profit_basis_points as int;
    let delta = if next_price > last_price { next_price - last_price } else { last_price - next_price };
    let mult = m.multiplier_basis_points as int;
    assert(0 <= r) by {
        assert(m.bull_total_supply / m.cached_bull_divisor >= 0);
        assert(m.bear_total_supply / m.cached_bear_divisor >= 0);
    }
    assert(r * bps <= r * 10000) by (nonlinear_arith)
        requires 0 <= r, 0 <= bps <= 10000;
    assert(r * bps >= 0) by (nonlinear_arith)
        requires 0 <= r, 0 <= bps;
    assert((r * bps) / 10000 <= r) by (nonlinear_arith)
        requires 0 <= r * bps <= r * 10000;
    assert((r * bps) / 10000 >= 0) by (nonlinear_arith)
        requires 0 <= r * bps;
    assert((((r * delta) / (last_price as int)) * mult) / 10000 >= 0) by (nonlinear_arith)
        requires 0 <= r, 0 <= delta, last_price > 0, 0 <= mult;
}

/// A buy or a sell that succeeds adds exactly the fee on its amount to the fee
/// reserve.
pub proof fn lemma_trade_fee(m: Market, balance: u128, is_bull: bool, amount: u128)
    ensures
        buy_outcome(m, balance, is_bull, amount) is Ok ==> buy_outcome(m, balance, is_bull, amount)->Ok_0.0.fee_reserve
            == m.fee_reserve + fee_of(amount as int, m.fee_basis_points as int),
        sell_outcome(m, balance, is_bull, amount) is Ok ==> sell_outcome(m, balance, is_bull, amount)->Ok_0.0.fee_reserve
            == m.fee_reserve + fee_of(amount as int, m.fee_basis_points as int),
{
}

/// Buying `amount` into an empty balance and reading it back gives `amount`.
pub proof fn lemma_buy_then_read(
    pre: Contract,
    post: Contract,
    account: Seq<char>,
    is_bull: bool,
    amount: u128,
    r: Result<u128, MarketError>,
)
    requires
        balance_in(pre.side(is_bull), account) == 0,
        pre.traded(post, account, is_bull, buy_outcome(pre.market, 0, is_bull, amount), r),
        r is Ok,
    ensures
        r == Ok::<u128, MarketError>(amount),
        balance_in(post.side(is_bull), account) == amount,
{
}

} // verus!
