//! Market state and the rebase engine: how value moves between the long
//! ("bull") and short ("bear") pools when the price changes.
use vstd::prelude::*;

verus! {

/// Denominator of every basis-point fraction.
pub const BASIS_POINTS_DIVISOR: u128 = 10000;

/// How far the built-in price source advances the price on each rebase.
pub const PRICE_STEP: u128 = 100;

/// Why an operation was refused. A refused operation changes nothing.
#[derive(Debug, Clone, Copy, PartialEq, Eq, Structural)]
pub enum MarketError {
    /// An addition or multiplication overflowed, or a subtraction went below zero.
    ArithmeticFault,
    /// A division by a zero price or a zero supply.
    DivisionByZeroFault,
}

/// The numeric state of the market: parameters, divisors, totals and reserves.
#[derive(Debug, Clone, Copy, PartialEq, Eq, Structural)]
pub struct Market {
    pub cached_bull_divisor: u128,
    pub cached_bear_divisor: u128,
    pub fee_basis_points: u128,
    pub max_app_fee_basis_points: u128,
    pub basis_points_divisor: u128,
    pub initial_rebase_divisor: u128,
    pub min_funding_divisor: u128,
    pub max_funding_divisor: u128,
    pub multiplier_basis_points: u128,
    pub max_profit_basis_points: u128,
    pub fee_reserve: u128,
    pub app_fee_basis_points: u128,
    pub app_fee_reserve: u128,
    pub funding_divisor: u128,
    pub last_price: u128,
    pub bull_total_supply: u128,
    pub bear_total_supply: u128,
}

/// The divisor that turns `raw` units into `next` effective units, rounded up
/// at one extra decimal digit; `fallback` where that rounds to 0.
pub open spec fn next_divisor_of(raw: int, next: int, fallback: u128) -> Result<u128, MarketError> {
    if raw * 10 > u128::MAX {
        Err(MarketError::ArithmeticFault)
    } else if next == 0 {
        Err(MarketError::DivisionByZeroFault)
    } else if (raw * 10) / next + 9 > u128::MAX {
        Err(MarketError::ArithmeticFault)
    } else if ((raw * 10) / next + 9) / 10 == 0 {
        Ok(fallback)
    } else {
        Ok((((raw * 10) / next + 9) / 10) as u128)
    }
}

/// The smaller of the two effective supplies.
pub open spec fn reference_supply(total_bulls: int, total_bears: int) -> int {
    if total_bulls < total_bears {
        total_bulls
    } else {
        total_bears
    }
}

/// The distance between two prices.
pub open spec fn price_delta(last_price: int, next_price: int) -> int {
    if next_price > last_price {
        next_price - last_price
    } else {
        last_price - next_price
    }
}

/// The most value one rebase may move.
pub open spec fn max_profit_of(ref_supply: int, max_profit_basis_points: int) -> int {
    (ref_supply * max_profit_basis_points) / (BASIS_POINTS_DIVISOR as int)
}

/// Value moved by the price change before the cap: the relative move first,
/// then the multiplier, each step truncating.
pub open spec fn raw_profit_of(ref_supply: int, delta: int, last_price: int, multiplier_basis_points: int) -> int {
    (((ref_supply * delta) / last_price) * multiplier_basis_points) / (BASIS_POINTS_DIVISOR as int)
}

/// The value moved once the cap is applied.
pub open spec fn capped_profit(raw_profit: int, max_profit: int) -> int {
    if raw_profit > max_profit {
        max_profit
    } else {
        raw_profit
    }
}

/// The fee charged on `amount` at `fee_basis_points`.
pub open spec fn fee_of(amount: int, fee_basis_points: int) -> int {
    (amount * fee_basis_points) / (BASIS_POINTS_DIVISOR as int)
}

impl Market {
    /// Divisors are never 0, and basis points are counted out of ten thousand.
    pub open spec fn wf(self) -> bool {
        &&& self.cached_bull_divisor >= 1
        &&& self.cached_bear_divisor >= 1
        &&& self.basis_points_divisor == BASIS_POINTS_DIVISOR
    }

    /// Effective supply of the long side.
    pub open spec fn total_bulls(self) -> int {
        (self.bull_total_supply / self.cached_bull_divisor) as int
    }

    /// Effective supply of the short side.
    pub open spec fn total_bears(self) -> int {
        (self.bear_total_supply / self.cached_bear_divisor) as int
    }

    /// The capped value that a move from `last_price` to `next_price` transfers.
    pub open spec fn profit(self, last_price: int, next_price: int) -> int {
        let ref_supply = reference_supply(self.total_bulls(), self.total_bears());
        capped_profit(
            raw_profit_of(ref_supply, price_delta(last_price, next_price), last_price, self.multiplier_basis_points as int),
            max_profit_of(ref_supply, self.max_profit_basis_points as int),
        )
    }

    /// The new (long, short) divisors for a move from `last_price` to `next_price`.
    pub open spec fn divisors_after(self, last_price: int, next_price: int) -> Result<(u128, u128), MarketError> {
        let total_bulls = self.total_bulls();
        let total_bears = self.total_bears();
        let ref_supply = reference_supply(total_bulls, total_bears);
        let delta = price_delta(last_price, next_price);
        let up = next_price > last_price;
        let profit = self.profit(last_price, next_price);
        if ref_supply * delta > u128::MAX {
            Err(MarketError::ArithmeticFault)
        } else if last_price == 0 {
            Err(MarketError::DivisionByZeroFault)
        } else if ((ref_supply * delta) / last_price) * self.multiplier_basis_points > u128::MAX {
            Err(MarketError::ArithmeticFault)
        } else if ref_supply * self.max_profit_basis_points > u128::MAX {
            Err(MarketError::ArithmeticFault)
        } else if (up && total_bulls + profit > u128::MAX) || (!up && total_bulls < profit) {
            Err(MarketError::ArithmeticFault)
        } else if (up && total_bears < profit) || (!up && total_bears + profit > u128::MAX) {
            Err(MarketError::ArithmeticFault)
        } else {
            let next_bulls = if up { total_bulls + profit } else { total_bulls - profit };
            let next_bears = if up { total_bears - profit } else { total_bears + profit };
            match next_divisor_of(self.bull_total_supply as int, next_bulls, self.cached_bull_divisor) {
                Err(e) => Err(e),
                Ok(bull_divisor) => match next_divisor_of(self.bear_total_supply as int, next_bears, self.cached_bear_divisor) {
                    Err(e) => Err(e),
                    Ok(bear_divisor) => Ok((bull_divisor, bear_divisor)),
                },
            }
        }
    }

    /// The state after one rebase to the next price of the built-in source.
    pub open spec fn rebased(self) -> Result<Market, MarketError> {
        if self.last_price + PRICE_STEP > u128::MAX {
            Err(MarketError::ArithmeticFault)
        } else {
            let next_price = (self.last_price + PRICE_STEP) as u128;
            match self.divisors_after(self.last_price as int, next_price as int) {
                Err(e) => Err(e),
                Ok((bull_divisor, bear_divisor)) => Ok(
                    Market {
                        last_price: next_price,
                        cached_bull_divisor: bull_divisor,
                        cached_bear_divisor: bear_divisor,
                        ..self
                    },
                ),
            }
        }
    }

    /// The state after a fee on `amount` is added to the reserve, and the fee.
    pub open spec fn with_fee(self, amount: int) -> Result<(Market, u128), MarketError> {
        if amount * self.fee_basis_points > u128::MAX {
            Err(MarketError::ArithmeticFault)
        } else if self.fee_reserve + fee_of(amount, self.fee_basis_points as int) > u128::MAX {
            Err(MarketError::ArithmeticFault)
        } else {
            let fee = fee_of(amount, self.fee_basis_points as int);
            Ok((Market { fee_reserve: (self.fee_reserve + fee) as u128, ..self }, fee as u128))
        }
    }
}

} // verus!
