//! The market as callers see it: rebase, fee collection, buy, sell and
//! balance queries, each on behalf of an already authenticated account.
use vstd::prelude::*;

use crate::ledger::{balance_in, Ledger};
use crate::market::{
    fee_of, next_divisor_of, BASIS_POINTS_DIVISOR, Market, MarketError, PRICE_STEP,
};

verus! {

/// Fee rate charged on every trade, in basis points.
pub const DEFAULT_FEE_BASIS_POINTS: u128 = 20;

/// Upper bound on the application fee rate, in basis points.
pub const DEFAULT_MAX_APP_FEE_BASIS_POINTS: u128 = 20;

/// Initial scale of a rebase divisor.
pub const INITIAL_REBASE_DIVISOR: u128 = 10_000_000_000;

/// Lower bound on the funding divisor.
pub const MIN_FUNDING_DIVISOR: u128 = 500;

/// Upper bound on the funding divisor.
pub const MAX_FUNDING_DIVISOR: u128 = 1000000;

/// The whole market: its numeric state and one ledger per side.
pub struct Contract {
    pub market: Market,
    /// Account of the price source; never read by the engine.
    pub price_feed: String,
    pub app_fees: Ledger,
    /// Raw balances on the long side.
    pub bulls: Ledger,
    /// Raw balances on the short side.
    pub bears: Ledger,
}

/// The long side's divisor where `is_bull`, else the short side's.
pub open spec fn divisor_of(m: Market, is_bull: bool) -> u128 {
    if is_bull {
        m.cached_bull_divisor
    } else {
        m.cached_bear_divisor
    }
}

/// `m` with the raw total of one side moved from holding `old_balance` to
/// holding `new_balance` for one account.
pub open spec fn with_total(m: Market, is_bull: bool, old_balance: int, new_balance: int) -> Result<Market, MarketError> {
    let total = if is_bull { m.bull_total_supply } else { m.bear_total_supply };
    let next = total - old_balance + new_balance;
    if next < 0 || next > u128::MAX {
        Err(MarketError::ArithmeticFault)
    } else if is_bull {
        Ok(Market { bull_total_supply: next as u128, ..m })
    } else {
        Ok(Market { bear_total_supply: next as u128, ..m })
    }
}

/// The raw balance after a buy of `amount` onto `balance`: a held balance is
/// first scaled by the side's divisor.
pub open spec fn bought_balance(balance: int, divisor: int, amount: int) -> int {
    if balance > 0 {
        balance / divisor + amount
    } else {
        amount
    }
}

/// Market state and new balance after a buy: rebase, fee, then the deposit.
pub open spec fn buy_outcome(m: Market, balance: u128, is_bull: bool, amount: u128) -> Result<(Market, u128), MarketError> {
    match m.rebased() {
        Err(e) => Err(e),
        Ok(m1) => match m1.with_fee(amount as int) {
            Err(e) => Err(e),
            Ok((m2, _fee)) => {
                let next = bought_balance(balance as int, divisor_of(m2, is_bull) as int, amount as int);
                if next > u128::MAX {
                    Err(MarketError::ArithmeticFault)
                } else {
                    match with_total(m2, is_bull, balance as int, next) {
                        Err(e) => Err(e),
                        Ok(m3) => Ok((m3, next as u128)),
                    }
                }
            },
        },
    }
}

/// Market state and new balance after a sell: rebase, fee, then the raw
/// amount taken off the raw balance.
pub open spec fn sell_outcome(m: Market, balance: u128, is_bull: bool, amount: u128) -> Result<(Market, u128), MarketError> {
    match m.rebased() {
        Err(e) => Err(e),
        Ok(m1) => match m1.with_fee(amount as int) {
            Err(e) => Err(e),
            Ok((m2, _fee)) => {
                if balance < amount {
                    Err(MarketError::ArithmeticFault)
                } else {
                    let next = balance - amount;
                    match with_total(m2, is_bull, balance as int, next) {
                        Err(e) => Err(e),
                        Ok(m3) => Ok((m3, next as u128)),
                    }
                }
            },
        },
    }
}

impl Contract {
    /// The market state is well formed and no ledger records an account twice.
    pub open spec fn wf(self) -> bool {
        &&& self.market.wf()
        &&& self.bulls.wf()
        &&& self.bears.wf()
        &&& self.app_fees.wf()
    }

    /// Each side's raw total is the sentinel unit plus the sum of the
    /// balances that side's ledger records.
    pub open spec fn totals_consistent(self) -> bool {
        &&& self.market.bull_total_supply == 1 + self.bulls.total()
        &&& self.market.bear_total_supply == 1 + self.bears.total()
    }

    /// The balances of the long side where `is_bull`, else of the short side.
    pub open spec fn side(self, is_bull: bool) -> Map<Seq<char>, u128> {
        if is_bull {
            self.bulls@
        } else {
            self.bears@
        }
    }

    /// Where a trade by `account` on one side yields `outcome`: on success the
    /// market takes the new state and the account the new balance, and the
    /// result is that balance; on failure nothing changes.
    pub open spec fn traded(
        self,
        post: Contract,
        account: Seq<char>,
        is_bull: bool,
        outcome: Result<(Market, u128), MarketError>,
        r: Result<u128, MarketError>,
    ) -> bool {
        match outcome {
            Ok((m, balance)) => {
                &&& r == Ok::<u128, MarketError>(balance)
                &&& post.market == m
                &&& post.side(is_bull) == self.side(is_bull).insert(account, balance)
                &&& post.side(!is_bull) == self.side(!is_bull)
                &&& post.price_feed@ == self.price_feed@
                &&& post.app_fees@ == self.app_fees@
            },
            Err(e) => {
                &&& r == Err::<u128, MarketError>(e)
                &&& post.market == self.market
                &&& post.bulls@ == self.bulls@
                &&& post.bears@ == self.bears@
                &&& post.price_feed@ == self.price_feed@
                &&& post.app_fees@ == self.app_fees@
            },
        }
    }

    /// A market at `last_price`, one sentinel unit on each side, divisors of 1
    /// and empty reserves.
    pub fn new(
        price_feed: String,
        multiplier_basis_points: u128,
        max_profit_basis_points: u128,
        funding_divisor: u128,
        app_fee_basis_points: u128,
        last_price: u128,
    ) -> (r: Contract)
        ensures
            r.wf(),
            r.price_feed@ == price_feed@,
            r.market == (Market {
                cached_bull_divisor: 1,
                cached_bear_divisor: 1,
                fee_basis_points: DEFAULT_FEE_BASIS_POINTS,
                max_app_fee_basis_points: DEFAULT_MAX_APP_FEE_BASIS_POINTS,
                basis_points_divisor: BASIS_POINTS_DIVISOR,
                initial_rebase_divisor: INITIAL_REBASE_DIVISOR,
                min_funding_divisor: MIN_FUNDING_DIVISOR,
                max_funding_divisor: MAX_FUNDING_DIVISOR,
                multiplier_basis_points,
                max_profit_basis_points,
                fee_reserve: 0,
                app_fee_basis_points,
                app_fee_reserve: 0,
                funding_divisor,
                last_price,
                bull_total_supply: 1,
                bear_total_supply: 1,
            }),
            r.bulls@ == Map::<Seq<char>, u128>::empty(),
            r.bears@ == Map::<Seq<char>, u128>::empty(),
            r.app_fees@ == Map::<Seq<char>, u128>::empty(),
            r.totals_consistent(),
    {
        Contract {
            market: Market {
                cached_bull_divisor: 1,
                cached_bear_divisor: 1,
                fee_basis_points: DEFAULT_FEE_BASIS_POINTS,
                max_app_fee_basis_points: DEFAULT_MAX_APP_FEE_BASIS_POINTS,
                basis_points_divisor: BASIS_POINTS_DIVISOR,
                initial_rebase_divisor: INITIAL_REBASE_DIVISOR,
                min_funding_divisor: MIN_FUNDING_DIVISOR,
                max_funding_divisor: MAX_FUNDING_DIVISOR,
                multiplier_basis_points,
                max_profit_basis_points,
                fee_reserve: 0,
                app_fee_basis_points,
                app_fee_reserve: 0,
                funding_divisor,
                last_price,
                bull_total_supply: 1,
                bear_total_supply: 1,
            },
            price_feed,
            app_fees: Ledger::new(),
            bulls: Ledger::new(),
            bears: Ledger::new(),
        }
    }

    /// The divisor that turns `ref_supply` raw units into `next_supply`
    /// effective units, or `fallback_divisor` where it rounds to 0.
    pub fn get_next_divisor(&self, ref_supply: u128, next_supply: u128, fallback_divisor: u128) -> (r: Result<u128, MarketError>)
        ensures
            r == next_divisor_of(ref_supply as int, next_supply as int, fallback_divisor),
    {
        let scaled = match ref_supply.checked_mul(10) {
            Some(v) => v,
            None => return Err(MarketError::ArithmeticFault),
        };
        if next_supply == 0 {
            return Err(MarketError::DivisionByZeroFault);
        }
        let rounded = match (scaled / next_supply).checked_add(9) {
            Some(v) => v,
            None => return Err(MarketError::ArithmeticFault),
        };
        let divisor = rounded / 10;
        if divisor == 0 {
            return Ok(fallback_divisor);
        }
        Ok(divisor)
    }
    /// The new (long, short) divisors for a move from `last_price` to
    /// `next_price`: the capped profit moves from the losing side's effective
    /// supply to the winning side's.
    pub fn get_divisors(&self, last_price: u128, next_price: u128) -> (r: Result<(u128, u128), MarketError>)
        requires
            self.wf(),
        ensures
            r == self.market.divisors_after(last_price as int, next_price as int),
    {
        let m = self.market;
        let mut total_bulls = m.bull_total_supply / m.cached_bull_divisor;
        let mut total_bears = m.bear_total_supply / m.cached_bear_divisor;
        let ref_supply = if total_bulls < total_bears { total_bulls } else { total_bears };
        let delta = if next_price > last_price { next_price - last_price } else { last_price - next_price };
        let moved = match ref_supply.checked_mul(delta) {
            Some(v) => v,
            None => return Err(MarketError::ArithmeticFault),
        };
        if last_price == 0 {
            return Err(MarketError::DivisionByZeroFault);
        }
        let scaled = match (moved / last_price).checked_mul(m.multiplier_basis_points) {
            Some(v) => v,
            None => return Err(MarketError::ArithmeticFault),
        };
        let mut profit = scaled / m.basis_points_divisor;
        let max_profit = match ref_supply.checked_mul(m.max_profit_basis_points) {
            Some(v) => v / m.basis_points_divisor,
            None => return Err(MarketError::ArithmeticFault),
        };
        if profit > max_profit {
            profit = max_profit;
        }
        assert(profit == self.market.profit(last_price as int, next_price as int));
        let up = next_price > last_price;
        total_bulls = if up {
            match total_bulls.checked_add(profit) {
                Some(v) => v,
                None => return Err(MarketError::ArithmeticFault),
            }
        } else {
            match total_bulls.checked_sub(profit) {
                Some(v) => v,
                None => return Err(MarketError::ArithmeticFault),
            }
        };
        total_bears = if up {
            match total_bears.checked_sub(profit) {
                Some(v) => v,
                None => return Err(MarketError::ArithmeticFault),
            }
        } else {
            match total_bears.checked_add(profit) {
                Some(v) => v,
                None => return Err(MarketError::ArithmeticFault),
            }
        };
        let bull_divisor = self.get_next_divisor(m.bull_total_supply, total_bulls, m.cached_bull_divisor)?;
        let bear_divisor = self.get_next_divisor(m.bear_total_supply, total_bears, m.cached_bear_divisor)?;
        Ok((bull_divisor, bear_divisor))
    }
    /// Moves the price one step of the built-in source and replaces both
    /// divisors; on failure nothing changes.
    pub fn rebase(&mut self) -> (r: Result<bool, MarketError>)
        requires
            old(self).wf(),
        ensures
            final(self).wf(),
            old(self).totals_consistent() ==> final(self).totals_consistent(),
            final(self).bulls == old(self).bulls,
            final(self).bears == old(self).bears,
            final(self).app_fees == old(self).app_fees,
            final(self).price_feed == old(self).price_feed,
            match old(self).market.rebased() {
                Ok(m) => r == Ok::<bool, MarketError>(true) && final(self).market == m,
                Err(e) => r == Err::<bool, MarketError>(e) && final(self).market == old(self).market,
            },
    {
        let next_price = match self.market.last_price.checked_add(PRICE_STEP) {
            Some(v) => v,
            None => return Err(MarketError::ArithmeticFault),
        };
        let divisors = self.get_divisors(self.market.last_price, next_price)?;
        self.market.last_price = next_price;
        self.market.cached_bull_divisor = divisors.0;
        self.market.cached_bear_divisor = divisors.1;
        Ok(true)
    }

    /// Adds the fee on `amount` to the fee reserve and returns the fee; on
    /// failure nothing changes.
    pub fn collect_fees(&mut self, amount: u128) -> (r: Result<u128, MarketError>)
        requires
            old(self).wf(),
        ensures
            final(self).wf(),
            old(self).totals_consistent() ==> final(self).totals_consistent(),
            final(self).bulls == old(self).bulls,
            final(self).bears == old(self).bears,
            final(self).app_fees == old(self).app_fees,
            final(self).price_feed == old(self).price_feed,
            match old(self).market.with_fee(amount as int) {
                Ok((m, fee)) => r == Ok::<u128, MarketError>(fee) && final(self).market == m,
                Err(e) => r == Err::<u128, MarketError>(e) && final(self).market == old(self).market,
            },
            r is Ok ==> r->Ok_0 == fee_of(amount as int, old(self).market.fee_basis_points as int)
                && final(self).market.fee_reserve == old(self).market.fee_reserve + r->Ok_0,
    {
        let charged = match amount.checked_mul(self.market.fee_basis_points) {
            Some(v) => v,
            None => return Err(MarketError::ArithmeticFault),
        };
        let fee = charged / self.market.basis_points_divisor;
        self.market.fee_reserve = match self.market.fee_reserve.checked_add(fee) {
            Some(v) => v,
            None => return Err(MarketError::ArithmeticFault),
        };
        Ok(fee)
    }

    /// The raw stored balance of `account` on one side; 0 where it never traded.
    pub fn get_token_value(&self, account: &String, is_bull: bool) -> (r: u128)
        requires
            self.wf(),
        ensures
            r == balance_in(self.side(is_bull), account@),
    {
        if is_bull {
            self.bulls.get(account)
        } else {
            self.bears.get(account)
        }
    }

    /// Moves one side's raw total from `old_balance` to `new_balance`.
    fn adjust_total(&mut self, is_bull: bool, old_balance: u128, new_balance: u128) -> (r: Result<(), MarketError>)
        ensures
            final(self).bulls == old(self).bulls,
            final(self).bears == old(self).bears,
            final(self).app_fees == old(self).app_fees,
            final(self).price_feed == old(self).price_feed,
            match with_total(old(self).market, is_bull, old_balance as int, new_balance as int) {
                Ok(m) => r is Ok && final(self).market == m,
                Err(e) => r == Err::<(), MarketError>(e) && final(self).market == old(self).market,
            },
    {
        let total = if is_bull { self.market.bull_total_supply } else { self.market.bear_total_supply };
        let next = if new_balance >= old_balance {
            match total.checked_add(new_balance - old_balance) {
                Some(v) => v,
                None => return Err(MarketError::ArithmeticFault),
            }
        } else {
            match total.checked_sub(old_balance - new_balance) {
                Some(v) => v,
                None => return Err(MarketError::ArithmeticFault),
            }
        };
        if is_bull {
            self.market.bull_total_supply = next;
        } else {
            self.market.bear_total_supply = next;
        }
        Ok(())
    }

    /// Records `balance` for `account` on one side.
    fn store(&mut self, account: &String, is_bull: bool, balance: u128)
        requires
            old(self).wf(),
        ensures
            final(self).wf(),
            final(self).market == old(self).market,
            final(self).side(is_bull) == old(self).side(is_bull).insert(account@, balance),
            final(self).side(!is_bull) == old(self).side(!is_bull),
            final(self).price_feed == old(self).price_feed,
            final(self).app_fees == old(self).app_fees,
            is_bull ==> final(self).bears == old(self).bears && final(self).bulls.total() == old(self).bulls.total()
                - balance_in(old(self).bulls@, account@) + balance,
            !is_bull ==> final(self).bulls == old(self).bulls && final(self).bears.total() == old(self).bears.total()
                - balance_in(old(self).bears@, account@) + balance,
    {
        if is_bull {
            self.bulls.set(account, balance);
        } else {
            self.bears.set(account, balance);
        }
    }

    /// Deposits `amount` for `account` on one side after a rebase and a fee:
    /// a held balance is scaled by the side's divisor before `amount` is added.
    /// Returns the new raw balance; on failure nothing changes. The fee is
    /// only booked to the reserve: the full `amount` is credited.
    pub fn buy(&mut self, account: &String, is_bull: bool, amount: u128) -> (r: Result<u128, MarketError>)
        requires
            old(self).wf(),
        ensures
            final(self).wf(),
            old(self).totals_consistent() ==> final(self).totals_consistent(),
            old(self).traded(
                *final(self),
                account@,
                is_bull,
                buy_outcome(old(self).market, balance_in(old(self).side(is_bull), account@), is_bull, amount),
                r,
            ),
            r is Ok ==> final(self).market.fee_reserve == old(self).market.fee_reserve + fee_of(
                amount as int,
                old(self).market.fee_basis_points as int,
            ),
    {
        let saved = self.market;
        let balance = self.get_token_value(account, is_bull);
        if let Err(e) = self.rebase() {
            return Err(e);
        }
        if let Err(e) = self.collect_fees(amount) {
            self.market = saved;
            return Err(e);
        }
        let next = if balance > 0 {
            let divisor = if is_bull { self.market.cached_bull_divisor } else { self.market.cached_bear_divisor };
            match (balance / divisor).checked_add(amount) {
                Some(v) => v,
                None => {
                    self.market = saved;
                    return Err(MarketError::ArithmeticFault);
                },
            }
        } else {
            amount
        };
        if let Err(e) = self.adjust_total(is_bull, balance, next) {
            self.market = saved;
            return Err(e);
        }
        self.store(account, is_bull, next);
        Ok(next)
    }

    /// Withdraws `amount` raw units from `account` on one side after a rebase
    /// and a fee. Returns the new raw balance; fails, changing nothing, where
    /// `amount` exceeds the stored balance. Unlike `buy`, the stored balance
    /// is not scaled by the divisor first, and the fee is only booked to the
    /// reserve; whether selling should also work in effective units is an
    /// open question, so the raw behaviour is kept as it is.
    pub fn sell(&mut self, account: &String, is_bull: bool, amount: u128) -> (r: Result<u128, MarketError>)
        requires
            old(self).wf(),
        ensures
            final(self).wf(),
            old(self).totals_consistent() ==> final(self).totals_consistent(),
            old(self).traded(
                *final(self),
                account@,
                is_bull,
                sell_outcome(old(self).market, balance_in(old(self).side(is_bull), account@), is_bull, amount),
                r,
            ),
            r is Ok ==> final(self).market.fee_reserve == old(self).market.fee_reserve + fee_of(
                amount as int,
                old(self).market.fee_basis_points as int,
            ),
    {
        let saved = self.market;
        let balance = self.get_token_value(account, is_bull);
        if let Err(e) = self.rebase() {
            return Err(e);
        }
        if let Err(e) = self.collect_fees(amount) {
            self.market = saved;
            return Err(e);
        }
        let next = match balance.checked_sub(amount) {
            Some(v) => v,
            None => {
                self.market = saved;
                return Err(MarketError::ArithmeticFault);
            },
        };
        if let Err(e) = self.adjust_total(is_bull, balance, next) {
            self.market = saved;
            return Err(e);
        }
        self.store(account, is_bull, next);
        Ok(next)
    }
}

} // verus!
