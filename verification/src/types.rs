//! Data model of the backtest engine.
//!
//! Prices are exact unsigned integers in a caller-chosen price unit, and the
//! per-trade balance is an integer in the same monetary unit.  The fractional
//! strategy parameters (band multiplier, stop-loss, take-profit) are exact
//! rationals given as numerator/denominator pairs.  The position size of a
//! trade is the integer quotient `usd_balance / open_price`, so realized
//! profit per trade is the exact integer `(close - open) * amount` (negated
//! for shorts).

use vstd::prelude::*;

verus! {

/// Largest admissible close price, so that every intermediate product in the
/// band computation fits comfortably in `i128`.
pub const PRICE_MAX: u64 = 1_000_000_000;

/// Largest admissible numerator or denominator of a fractional parameter.
pub const PARTS_MAX: u64 = 100_000;

/// Largest admissible per-trade balance.
pub const BALANCE_MAX: u64 = 1_000_000_000_000;

/// Largest admissible number of candles in one series.
pub const CANDLES_MAX: usize = 10_000;

/// Direction of a position: long bets on a rise, short on a fall.
#[derive(Clone, Copy, PartialEq, Eq, Structural, Debug)]
pub enum Side {
    Long,
    Short,
}

/// One time-bucketed price record; the engine reads only the close.
#[derive(Clone, Copy, PartialEq, Eq, Structural, Debug)]
pub struct Candle {
    pub close: u64,
}

/// The input series: pass-through identifiers and the ordered candles.
#[derive(Debug)]
pub struct Ticker {
    pub symbol: String,
    pub exchange: String,
    pub candles: Vec<Candle>,
}

/// Strategy parameters.  `mult`, `sl` and `tp` are exact rationals
/// `num / den`; `usd_balance` is the notional allocated to each trade.
#[derive(Clone, Copy, PartialEq, Eq, Structural, Debug)]
pub struct Params {
    pub period: usize,
    pub mult_num: u64,
    pub mult_den: u64,
    pub sl_num: u64,
    pub sl_den: u64,
    pub tp_num: u64,
    pub tp_den: u64,
    pub usd_balance: u64,
}

/// A position while it is open: entry price, size, and direction.
#[derive(Clone, Copy, PartialEq, Eq, Structural, Debug)]
pub struct OpenTrade {
    pub open_price: u64,
    pub amount: u64,
    pub side: Side,
}

/// A finished trade as reported in the result.
#[derive(Clone, Copy, PartialEq, Eq, Structural, Debug)]
pub struct ClosedTrade {
    pub open_price: u64,
    pub close_price: u64,
    pub amount: u64,
    pub side: Side,
}

/// The output record: closed trades in closing order, their summed profit,
/// and the pass-through identifiers.
#[derive(PartialEq, Debug)]
pub struct BacktestResult {
    pub trades: Vec<ClosedTrade>,
    pub total_profit: i128,
    pub symbol: String,
    pub exchange: String,
}

/// Why a run was rejected before any candle was processed.
#[derive(Clone, Copy, PartialEq, Eq, Structural, Debug)]
pub enum BacktestError {
    /// A fractional parameter has a zero denominator.
    MissingOrInvalidParameter,
    /// The window length is zero, or the band multiplier is not positive.
    InvalidIndicatorConfiguration,
    /// Some close in the series is zero, which would make the position size
    /// `usd_balance / close` undefined.
    InvalidClose,
}

impl Params {
    /// The indicator configuration is admissible: a nonempty window and a
    /// positive multiplier.
    pub open spec fn valid_config(self) -> bool {
        self.period >= 1 && self.mult_num >= 1 && self.mult_den >= 1
    }

    /// The stop-loss and take-profit rationals are well formed.
    pub open spec fn valid_ratios(self) -> bool {
        self.sl_den >= 1 && self.tp_den >= 1
    }

    /// Machine limits: every parameter small enough that all intermediate
    /// arithmetic of the engine fits in `i128`.
    pub open spec fn in_limits(self) -> bool {
        &&& self.mult_num <= PARTS_MAX
        &&& self.mult_den <= PARTS_MAX
        &&& self.sl_num <= PARTS_MAX
        &&& self.sl_den <= PARTS_MAX
        &&& self.tp_num <= PARTS_MAX
        &&& self.tp_den <= PARTS_MAX
        &&& self.usd_balance <= BALANCE_MAX
    }
}

/// The sequence of closes carried by a candle sequence.
pub open spec fn closes_of(candles: Seq<Candle>) -> Seq<u64> {
    candles.map_values(|c: Candle| c.close)
}

/// Every close is at most `PRICE_MAX` (the machine limit on prices).
pub open spec fn closes_in_range(closes: Seq<u64>) -> bool {
    forall|i: int| 0 <= i < closes.len() ==> #[trigger] closes[i] <= PRICE_MAX
}

/// Every close is positive (zero closes are rejected as invalid data).
pub open spec fn closes_positive(closes: Seq<u64>) -> bool {
    forall|i: int| 0 <= i < closes.len() ==> #[trigger] closes[i] >= 1
}

/// Field bounds that every trade emitted by the engine satisfies.
pub open spec fn trade_in_bounds(t: ClosedTrade) -> bool {
    &&& 1 <= t.open_price <= PRICE_MAX
    &&& 1 <= t.close_price <= PRICE_MAX
    &&& t.amount <= BALANCE_MAX
}

/// Exact realized profit of one closed trade, in units of
/// (monetary unit) x (price unit).
pub open spec fn pnl_of(t: ClosedTrade) -> int {
    match t.side {
        Side::Long => (t.close_price - t.open_price) * t.amount,
        Side::Short => (t.open_price - t.close_price) * t.amount,
    }
}

/// Sum of the realized profits of a trade sequence.
pub open spec fn sum_pnl(s: Seq<ClosedTrade>) -> int
    decreases s.len(),
{
    if s.len() == 0 {
        0
    } else {
        sum_pnl(s.drop_last()) + pnl_of(s.last())
    }
}

impl ClosedTrade {
    /// Exact realized profit of this trade.
    pub fn pnl(&self) -> (r: i128)
        requires
            trade_in_bounds(*self),
        ensures
            r == pnl_of(*self),
    {
        let diff: i128 = match self.side {
            Side::Long => self.close_price as i128 - self.open_price as i128,
            Side::Short => self.open_price as i128 - self.close_price as i128,
        };
        let amount: i128 = self.amount as i128;
        proof {
            assert(-0x1_0000_0000_0000_0000_0000_0000 <= diff * amount
                <= 0x1_0000_0000_0000_0000_0000_0000) by (nonlinear_arith)
                requires
                    -1_000_000_000 <= diff <= 1_000_000_000,
                    0 <= amount <= 1_000_000_000_000,
            ;
        }
        diff * amount
    }
}

} // verus!
