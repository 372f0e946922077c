//! The trade state machine, the simulation loop, the profit aggregator and
//! the result assembler.
//!
//! The state machine holds at most one open position, modeled as an
//! `Option<OpenTrade>`.  Each post-warm-up candle is handled in one step:
//! while flat, a close strictly above the upper band opens a short and a
//! close strictly below the lower band opens a long; while a position is
//! open, a strict stop-loss or take-profit breach closes it at the current
//! close.  A position still open after the last candle is force-closed at
//! the last close.  All comparisons are strict, so a close exactly on a band
//! or on an exit price never triggers a transition.
//!
//! The whole simulation is mirrored by the spec functions `sim_state`,
//! `sim_trades` and `finished_trades`, and the executable loop is proved to
//! produce exactly the trades of that model.

use vstd::prelude::*;

verus! {

use crate::indicator::breaks_lower;
use crate::indicator::breaks_upper;
use crate::indicator::Indicator;
use crate::types::closes_in_range;
use crate::types::closes_of;
use crate::types::closes_positive;
use crate::types::sum_pnl;
use crate::types::trade_in_bounds;
use crate::types::BacktestError;
use crate::types::BacktestResult;
use crate::types::ClosedTrade;
use crate::types::OpenTrade;
use crate::types::Params;
use crate::types::Side;
use crate::types::Ticker;
use crate::types::BALANCE_MAX;
use crate::types::CANDLES_MAX;
use crate::types::PRICE_MAX;

/// Strict stop-loss breach of the open position `t` at `close`, for the
/// fraction `sl_num / sl_den`: a long stops out strictly below
/// `open * (1 - sl)`, a short strictly above `open * (1 + sl)`.  Both sides
/// are multiplied by the positive denominator, so the comparison is exact.
pub open spec fn sl_breach(t: OpenTrade, close: u64, p: Params) -> bool {
    match t.side {
        Side::Long => close * p.sl_den < t.open_price * (p.sl_den - p.sl_num),
        Side::Short => close * p.sl_den > t.open_price * (p.sl_den + p.sl_num),
    }
}

/// Strict take-profit breach of the open position `t` at `close`, for the
/// fraction `tp_num / tp_den`: a long takes profit strictly above
/// `open * (1 + tp)`, a short strictly below `open * (1 - tp)`.
pub open spec fn tp_breach(t: OpenTrade, close: u64, p: Params) -> bool {
    match t.side {
        Side::Long => close * p.tp_den > t.open_price * (p.tp_den + p.tp_num),
        Side::Short => close * p.tp_den < t.open_price * (p.tp_den - p.tp_num),
    }
}

/// An open position must close at `close`: stop-loss or take-profit breach.
pub open spec fn exit_breach(t: OpenTrade, close: u64, p: Params) -> bool {
    sl_breach(t, close, p) || tp_breach(t, close, p)
}

/// The window of the `period` most recent closes ending at index `i`,
/// inclusive of the close at `i`.
pub open spec fn window_at(closes: Seq<u64>, period: nat, i: int) -> Seq<u64> {
    closes.subrange(i + 1 - period, i + 1)
}

/// The position opened while flat at close `c` over the full window `w`:
/// a short strictly above the upper band, a long strictly below the lower
/// band, nothing otherwise.  The position size is the integer quotient
/// `usd_balance / c`.
pub open spec fn entry_signal(w: Seq<u64>, c: u64, p: Params) -> Option<OpenTrade> {
    if breaks_upper(w, c, p.mult_num, p.mult_den) {
        Some(
            OpenTrade {
                open_price: c,
                amount: (p.usd_balance as int / c as int) as u64,
                side: Side::Short,
            },
        )
    } else if breaks_lower(w, c, p.mult_num, p.mult_den) {
        Some(
            OpenTrade {
                open_price: c,
                amount: (p.usd_balance as int / c as int) as u64,
                side: Side::Long,
            },
        )
    } else {
        None
    }
}

/// The closed record of position `t` exited at `close`.
pub open spec fn close_at(t: OpenTrade, close: u64) -> ClosedTrade {
    ClosedTrade { open_price: t.open_price, close_price: close, amount: t.amount, side: t.side }
}

/// One step of the trade state machine at close `c` over window `w`: the
/// next position state.  Entries are evaluated only while flat, exits only
/// while a position is open, so a position never flips side in one step.
pub open spec fn step_state(st: Option<OpenTrade>, w: Seq<u64>, c: u64, p: Params) -> Option<
    OpenTrade,
> {
    match st {
        Option::None => entry_signal(w, c, p),
        Option::Some(t) => if exit_breach(t, c, p) {
            None
        } else {
            Some(t)
        },
    }
}

/// The trade emitted by one step: the open position closed at `c` on a
/// breach, nothing otherwise.  A step that opens a position emits nothing.
pub open spec fn step_emit(st: Option<OpenTrade>, c: u64, p: Params) -> Option<ClosedTrade> {
    match st {
        Option::None => None,
        Option::Some(t) => if exit_breach(t, c, p) {
            Some(close_at(t, c))
        } else {
            None
        },
    }
}

/// The position state after the first `j` post-warm-up candles.  The `j`-th
/// processed candle has index `period + j - 1`, and its window is the
/// `period` closes ending there, inclusive.
pub open spec fn sim_state(closes: Seq<u64>, p: Params, j: nat) -> Option<OpenTrade>
    decreases j,
{
    if j == 0 {
        None
    } else {
        let i = p.period + j - 1;
        step_state(
            sim_state(closes, p, (j - 1) as nat),
            window_at(closes, p.period as nat, i),
            closes[i],
            p,
        )
    }
}

/// The trades emitted during the first `j` post-warm-up candles, in closing
/// order.
pub open spec fn sim_trades(closes: Seq<u64>, p: Params, j: nat) -> Seq<ClosedTrade>
    decreases j,
{
    if j == 0 {
        Seq::empty()
    } else {
        let i = p.period + j - 1;
        let prev = sim_trades(closes, p, (j - 1) as nat);
        match step_emit(sim_state(closes, p, (j - 1) as nat), closes[i], p) {
            Option::Some(ct) => prev.push(ct),
            Option::None => prev,
        }
    }
}

/// Every trade of the finished simulation over a series of at least
/// `period` closes: the emitted trades, plus the still-open position
/// force-closed at the final close.
pub open spec fn finished_trades(closes: Seq<u64>, p: Params) -> Seq<ClosedTrade> {
    let j = (closes.len() - p.period) as nat;
    let base = sim_trades(closes, p, j);
    match sim_state(closes, p, j) {
        Option::Some(t) => base.push(close_at(t, closes[closes.len() - 1])),
        Option::None => base,
    }
}

/// Decide a strict stop-loss or take-profit breach exactly.
pub fn exit_check(t: &OpenTrade, close: u64, p: &Params) -> (b: bool)
    requires
        p.valid_ratios(),
        p.in_limits(),
        1 <= close <= PRICE_MAX,
        1 <= t.open_price <= PRICE_MAX,
    ensures
        b == exit_breach(*t, close, *p),
{
    let c = close as i128;
    let o = t.open_price as i128;
    let sln = p.sl_num as i128;
    let sld = p.sl_den as i128;
    let tpn = p.tp_num as i128;
    let tpd = p.tp_den as i128;
    proof {
        assert(-1_000_000_000_000_000 <= c * sld <= 1_000_000_000_000_000
            && -1_000_000_000_000_000 <= c * tpd <= 1_000_000_000_000_000
            && -1_000_000_000_000_000 <= o * (sld - sln) <= 1_000_000_000_000_000
            && -1_000_000_000_000_000 <= o * (sld + sln) <= 1_000_000_000_000_000
            && -1_000_000_000_000_000 <= o * (tpd - tpn) <= 1_000_000_000_000_000
            && -1_000_000_000_000_000 <= o * (tpd + tpn) <= 1_000_000_000_000_000)
            by (nonlinear_arith)
            requires
                1 <= c <= 1_000_000_000,
                1 <= o <= 1_000_000_000,
                0 <= sln <= 100_000,
                1 <= sld <= 100_000,
                0 <= tpn <= 100_000,
                1 <= tpd <= 100_000,
        ;
    }
    match t.side {
        Side::Long => c * sld < o * (sld - sln) || c * tpd > o * (tpd + tpn),
        Side::Short => c * sld > o * (sld + sln) || c * tpd < o * (tpd - tpn),
    }
}

/// Run the trade state machine over the whole series: prime the indicator
/// with the first `period` closes, then process each later candle in one
/// step, and force-close any position left open at the final close.  The
/// returned trades are exactly those of the simulation model.
pub fn simulate(ind: Indicator, closes: &Vec<u64>, p: &Params) -> (trades: Vec<ClosedTrade>)
    requires
        ind.wf(),
        ind.window@.len() == 0,
        ind.period == p.period,
        ind.mult_num == p.mult_num,
        ind.mult_den == p.mult_den,
        p.valid_config(),
        p.valid_ratios(),
        p.in_limits(),
        p.period <= closes@.len(),
        closes@.len() <= CANDLES_MAX,
        closes_in_range(closes@),
        closes_positive(closes@),
    ensures
        trades@ == finished_trades(closes@, *p),
        trades@.len() <= closes@.len(),
        forall|k: int| 0 <= k < trades@.len() ==> trade_in_bounds(#[trigger] trades@[k]),
{
    let mut ind = ind;
    let n = closes.len();
    let period = p.period;
    for i in 0..period
        invariant
            ind.wf(),
            ind.period == p.period,
            ind.mult_num == p.mult_num,
            ind.mult_den == p.mult_den,
            period == p.period,
            n == closes@.len(),
            period <= n <= CANDLES_MAX,
            closes_in_range(closes@),
            closes_positive(closes@),
            ind.window@ == closes@.take(i as int),
    {
        ind.consume(closes[i]);
        proof {
            assert(closes@.take(i as int).push(closes@[i as int]) =~= closes@.take(i + 1));
        }
    }
    let mut state: Option<OpenTrade> = None;
    let mut trades: Vec<ClosedTrade> = Vec::new();
    for i in period..n
        invariant
            ind.wf(),
            ind.period == p.period,
            ind.mult_num == p.mult_num,
            ind.mult_den == p.mult_den,
            p.valid_config(),
            p.valid_ratios(),
            p.in_limits(),
            period == p.period,
            n == closes@.len(),
            1 <= period <= n <= CANDLES_MAX,
            closes_in_range(closes@),
            closes_positive(closes@),
            ind.window@ == closes@.subrange(i - period, i as int),
            state == sim_state(closes@, *p, (i - period) as nat),
            trades@ == sim_trades(closes@, *p, (i - period) as nat),
            trades@.len() <= i - period,
            state matches Some(t) ==> 1 <= t.open_price <= PRICE_MAX && t.amount <= BALANCE_MAX,
            forall|k: int| 0 <= k < trades@.len() ==> trade_in_bounds(#[trigger] trades@[k]),
    {
        let c = closes[i];
        ind.consume(c);
        proof {
            assert(closes@.subrange(i - period, i as int).drop_first().push(c) =~= closes@.subrange(
                i + 1 - period,
                i + 1,
            ));
        }
        match state {
            None => {
                let (above, below) = ind.signals(c);
                if above {
                    state = Some(
                        OpenTrade {
                            open_price: c,
                            amount: p.usd_balance / c,
                            side: Side::Short,
                        },
                    );
                } else if below {
                    state = Some(
                        OpenTrade { open_price: c, amount: p.usd_balance / c, side: Side::Long },
                    );
                }
            },
            Some(t) => {
                if exit_check(&t, c, p) {
                    trades.push(
                        ClosedTrade {
                            open_price: t.open_price,
                            close_price: c,
                            amount: t.amount,
                            side: t.side,
                        },
                    );
                    state = None;
                }
            },
        }
        proof {
            assert(state == sim_state(closes@, *p, (i + 1 - period) as nat));
            assert(trades@ == sim_trades(closes@, *p, (i + 1 - period) as nat));
        }
    }
    if let Some(t) = state {
        let last = closes[n - 1];
        trades.push(
            ClosedTrade {
                open_price: t.open_price,
                close_price: last,
                amount: t.amount,
                side: t.side,
            },
        );
    }
    proof {
        assert(trades@ == finished_trades(closes@, *p));
    }
    trades
}

/// Sum the realized profit of every trade: the profit aggregator.  The
/// total is recomputed exactly from the trade list, never kept separately.
pub fn total_profit(trades: &Vec<ClosedTrade>) -> (r: i128)
    requires
        trades@.len() <= CANDLES_MAX,
        forall|k: int| 0 <= k < trades@.len() ==> trade_in_bounds(#[trigger] trades@[k]),
    ensures
        r == sum_pnl(trades@),
{
    let mut acc: i128 = 0;
    let n = trades.len();
    for i in 0..n
        invariant
            n == trades@.len(),
            n <= CANDLES_MAX,
            forall|k: int| 0 <= k < trades@.len() ==> trade_in_bounds(#[trigger] trades@[k]),
            acc == sum_pnl(trades@.take(i as int)),
            -i * 1_000_000_000_000_000_000_000 <= acc <= i * 1_000_000_000_000_000_000_000,
    {
        let t = trades[i];
        let pv = t.pnl();
        proof {
            let dd: int = match t.side {
                Side::Long => t.close_price - t.open_price,
                Side::Short => t.open_price - t.close_price,
            };
            assert(pv == dd * t.amount);
            assert(-1_000_000_000_000_000_000_000 <= dd * (t.amount as int)
                <= 1_000_000_000_000_000_000_000
                && (-(i as int) * 1_000_000_000_000_000_000_000) + (
            -1_000_000_000_000_000_000_000) >= -(i + 1) * 1_000_000_000_000_000_000_000
                && ((i as int) * 1_000_000_000_000_000_000_000) + 1_000_000_000_000_000_000_000
                <= (i + 1) * 1_000_000_000_000_000_000_000
                && (i + 1) * 1_000_000_000_000_000_000_000
                <= 10_000_000_000_000_000_000_000_000)
                by (nonlinear_arith)
                requires
                    -1_000_000_000 <= dd <= 1_000_000_000,
                    0 <= t.amount <= 1_000_000_000_000,
                    0 <= i < 10_000,
            ;
            assert(trades@.take(i + 1).drop_last() =~= trades@.take(i as int));
            assert(trades@.take(i + 1).last() == trades@[i as int]);
        }
        acc = acc + pv;
    }
    proof {
        assert(trades@.take(n as int) =~= trades@);
    }
    acc
}

/// Run the whole backtest.
///
/// Validation comes first: a zero period or a malformed multiplier is a
/// configuration error, and a malformed stop-loss or take-profit rational is
/// an invalid parameter; both are reported before any candle is processed.
/// A series shorter than the period is not an error: the engine skips the
/// simulation and returns an empty, zero-profit result.  Otherwise every
/// close must be positive (a zero close would make the position size
/// undefined), the simulation runs to completion, and the result carries
/// the closed trades in closing order, their exact summed profit, and the
/// pass-through identifiers.
pub fn run(ticker: Ticker, params: Params) -> (r: Result<BacktestResult, BacktestError>)
    requires
        params.in_limits(),
        ticker.candles@.len() <= CANDLES_MAX,
        closes_in_range(closes_of(ticker.candles@)),
    ensures
        !params.valid_config() ==> r == Err::<BacktestResult, BacktestError>(
            BacktestError::InvalidIndicatorConfiguration,
        ),
        params.valid_config() && !params.valid_ratios() ==> r == Err::<
            BacktestResult,
            BacktestError,
        >(BacktestError::MissingOrInvalidParameter),
        params.valid_config() && params.valid_ratios() && ticker.candles@.len() < params.period
            ==> r is Ok && r->Ok_0.trades@.len() == 0 && r->Ok_0.total_profit == 0,
        params.valid_config() && params.valid_ratios() && ticker.candles@.len() >= params.period
            && !closes_positive(closes_of(ticker.candles@)) ==> r == Err::<
            BacktestResult,
            BacktestError,
        >(BacktestError::InvalidClose),
        params.valid_config() && params.valid_ratios() && ticker.candles@.len() >= params.period
            && closes_positive(closes_of(ticker.candles@)) ==> r is Ok
            && r->Ok_0.trades@ == finished_trades(closes_of(ticker.candles@), params)
            && r->Ok_0.total_profit == sum_pnl(finished_trades(closes_of(ticker.candles@), params)),
        r is Ok ==> r->Ok_0.symbol == ticker.symbol && r->Ok_0.exchange == ticker.exchange,
        r is Ok ==> r->Ok_0.total_profit == sum_pnl(r->Ok_0.trades@),
{
    if params.period == 0 || params.mult_num == 0 || params.mult_den == 0 {
        return Err(BacktestError::InvalidIndicatorConfiguration);
    }
    if params.sl_den == 0 || params.tp_den == 0 {
        return Err(BacktestError::MissingOrInvalidParameter);
    }
    let ncand = ticker.candles.len();
    let mut closes: Vec<u64> = Vec::new();
    for i in 0..ncand
        invariant
            ncand == ticker.candles@.len(),
            closes@.len() == i,
            forall|k: int| 0 <= k < i ==> #[trigger] closes@[k] == ticker.candles@[k].close,
    {
        closes.push(ticker.candles[i].close);
    }
    proof {
        assert(closes@ =~= closes_of(ticker.candles@));
    }
    if ncand < params.period {
        return Ok(
            BacktestResult {
                trades: Vec::new(),
                total_profit: 0,
                symbol: ticker.symbol,
                exchange: ticker.exchange,
            },
        );
    }
    for i in 0..ncand
        invariant
            ncand == closes@.len(),
            closes@ == closes_of(ticker.candles@),
            params.valid_config(),
            params.valid_ratios(),
            ticker.candles@.len() >= params.period,
            forall|k: int| 0 <= k < i ==> #[trigger] closes@[k] >= 1,
    {
        if closes[i] == 0 {
            return Err(BacktestError::InvalidClose);
        }
    }
    let ind = match Indicator::new(params.period, params.mult_num, params.mult_den) {
        Ok(ind) => ind,
        Err(e) => {
            return Err(e);
        },
    };
    let trades = simulate(ind, &closes, &params);
    let total = total_profit(&trades);
    Ok(
        BacktestResult {
            trades,
            total_profit: total,
            symbol: ticker.symbol,
            exchange: ticker.exchange,
        },
    )
}

} // verus!
