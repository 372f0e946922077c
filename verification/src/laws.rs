//! The general guarantees of the engine, stated and proved over the
//! simulation model that `engine::run` is proved to implement.

use vstd::prelude::*;

verus! {

use crate::engine::close_at;
use crate::engine::finished_trades;
use crate::engine::sim_state;
use crate::engine::sim_trades;
use crate::engine::sl_breach;
use crate::engine::step_emit;
use crate::engine::step_state;
use crate::engine::tp_breach;
use crate::indicator::breaks_lower;
use crate::indicator::breaks_upper;
use crate::indicator::sum_of;
use crate::indicator::sum_sq_of;
use crate::types::sum_pnl;
use crate::types::BacktestResult;
use crate::types::OpenTrade;
use crate::types::Params;
use crate::types::Side;

/// At most one position is ever open, and entries and exits never mix in a
/// single step: a step from the flat state emits no trade, and a step with
/// an open position either keeps that very position or closes it -- it
/// never replaces it, so a direct long/short flip in one step is
/// impossible.
pub proof fn lemma_single_position(st: Option<OpenTrade>, w: Seq<u64>, c: u64, p: Params)
    ensures
        st is None ==> step_emit(st, c, p) is None,
        st is Some ==> step_state(st, w, c, p) == st || step_state(st, w, c, p) is None,
{
}

/// A trade is emitted by a step exactly when the open position closes, and
/// the emitted record carries the side, entry price and size fixed at
/// entry, together with the closing candle's price.
pub proof fn lemma_emitted_trade_matches(st: Option<OpenTrade>, w: Seq<u64>, c: u64, p: Params)
    ensures
        step_emit(st, c, p) is Some <==> (st is Some && step_state(st, w, c, p) is None),
        step_emit(st, c, p) is Some ==> step_emit(st, c, p)->0 == close_at(st->0, c),
{
}

/// The number of positions opened during the first `j` post-warm-up
/// candles.
pub open spec fn count_opens(closes: Seq<u64>, p: Params, j: nat) -> nat
    decreases j,
{
    if j == 0 {
        0
    } else {
        let prev = count_opens(closes, p, (j - 1) as nat);
        if sim_state(closes, p, (j - 1) as nat) is None && sim_state(closes, p, j) is Some {
            prev + 1
        } else {
            prev
        }
    }
}

/// No opened position is ever dropped and none is reported twice: after any
/// number of steps, the number of opened positions equals the number of
/// emitted trades, plus one for a position still open.
pub proof fn lemma_positions_accounted(closes: Seq<u64>, p: Params, j: nat)
    ensures
        sim_trades(closes, p, j).len() + (if sim_state(closes, p, j) is Some {
            1int
        } else {
            0int
        }) == count_opens(closes, p, j),
    decreases j,
{
    if j != 0 {
        lemma_positions_accounted(closes, p, (j - 1) as nat);
    }
}

/// Over a whole run, every opened position appears in the finished trade
/// list exactly once: the emitted trades account for every position closed
/// by a breach, and the terminal flush closes the one position that may
/// still be open.
pub proof fn lemma_every_open_position_reported(closes: Seq<u64>, p: Params)
    requires
        p.period <= closes.len(),
    ensures
        finished_trades(closes, p).len() == count_opens(
            closes,
            p,
            (closes.len() - p.period) as nat,
        ),
{
    lemma_positions_accounted(closes, p, (closes.len() - p.period) as nat);
}

/// The trade log only grows at the end: the trades after `j` steps are a
/// prefix of the trades after `j + 1` steps, so closed trades stay in the
/// chronological order of their closing and are never reordered or removed.
pub proof fn lemma_trades_append_only(closes: Seq<u64>, p: Params, j: nat)
    ensures
        sim_trades(closes, p, j).is_prefix_of(sim_trades(closes, p, j + 1)),
{
    let prev = sim_trades(closes, p, j);
    let next = sim_trades(closes, p, j + 1);
    assert(((j + 1) - 1) as nat == j);
    assert(next.subrange(0, prev.len() as int) =~= prev);
}

/// For any window `w` and any value `x`, the sum of the squared distances
/// of `x` from the window's entries, `n * x^2 - 2 * s * x + q`, is
/// nonnegative.
pub proof fn lemma_spread_nonneg(w: Seq<u64>, x: int)
    ensures
        w.len() * (x * x) - 2 * sum_of(w) * x + sum_sq_of(w) >= 0,
    decreases w.len(),
{
    if w.len() == 0 {
        assert(w.len() * (x * x) - 2 * sum_of(w) * x + sum_sq_of(w) >= 0) by (nonlinear_arith)
            requires
                w.len() == 0,
                sum_of(w) == 0,
                sum_sq_of(w) == 0,
        ;
    } else {
        lemma_spread_nonneg(w.drop_last(), x);
        let y = w.last() as int;
        let n0 = w.drop_last().len() as int;
        let s0 = sum_of(w.drop_last());
        let q0 = sum_sq_of(w.drop_last());
        assert(sum_of(w) == s0 + y);
        assert(sum_sq_of(w) == q0 + y * y);
        assert(w.len() == n0 + 1);
        assert((n0 + 1) * (x * x) - 2 * (s0 + y) * x + (q0 + y * y) == (n0 * (x * x) - 2 * s0 * x
            + q0) + (x - y) * (x - y) && (x - y) * (x - y) >= 0) by (nonlinear_arith);
        assert(w.len() * (x * x) - 2 * sum_of(w) * x + sum_sq_of(w) == (n0 + 1) * (x * x) - 2 * (s0
            + y) * x + (q0 + y * y)) by (nonlinear_arith)
            requires
                w.len() == n0 + 1,
                sum_of(w) == s0 + y,
                sum_sq_of(w) == q0 + y * y,
        ;
    }
}

/// The quantity `n * q - s^2` that the squared band comparisons test
/// against is `n^2` times the population variance of the window, and it is
/// never negative, so the comparisons really do decide the position of a
/// close relative to `mean +/- mult * stddev`.
pub proof fn lemma_variance_nonneg(w: Seq<u64>)
    ensures
        w.len() * sum_sq_of(w) - sum_of(w) * sum_of(w) >= 0,
    decreases w.len(),
{
    if w.len() == 0 {
    } else {
        lemma_variance_nonneg(w.drop_last());
        lemma_spread_nonneg(w.drop_last(), w.last() as int);
        let y = w.last() as int;
        let n0 = w.drop_last().len() as int;
        let s0 = sum_of(w.drop_last());
        let q0 = sum_sq_of(w.drop_last());
        assert((n0 + 1) * (q0 + y * y) - (s0 + y) * (s0 + y) == (n0 * q0 - s0 * s0) + (n0 * (y * y)
            - 2 * s0 * y + q0)) by (nonlinear_arith);
    }
}

/// A close exactly on a band never signals an entry: when the squared
/// deviation comparison holds with equality, neither band is strictly
/// broken, whatever the sign of the deviation.
pub proof fn lemma_band_boundary(w: Seq<u64>, c: u64, kn: u64, kd: u64)
    requires
        (w.len() * c - sum_of(w)) * (w.len() * c - sum_of(w)) * (kd * kd) == (kn * kn) * (w.len()
            * sum_sq_of(w) - sum_of(w) * sum_of(w)),
    ensures
        !breaks_upper(w, c, kn, kd),
        !breaks_lower(w, c, kn, kd),
{
    let d = w.len() * c - sum_of(w);
    assert((-d) * (-d) == d * d) by (nonlinear_arith);
}

/// A close exactly on a stop-loss or take-profit price never closes a
/// position: the exit comparisons are strict.
pub proof fn lemma_exit_boundary(t: OpenTrade, c: u64, p: Params)
    ensures
        t.side == Side::Long && c * p.sl_den == t.open_price * (p.sl_den - p.sl_num)
            ==> !sl_breach(t, c, p),
        t.side == Side::Long && c * p.tp_den == t.open_price * (p.tp_den + p.tp_num)
            ==> !tp_breach(t, c, p),
        t.side == Side::Short && c * p.sl_den == t.open_price * (p.sl_den + p.sl_num)
            ==> !sl_breach(t, c, p),
        t.side == Side::Short && c * p.tp_den == t.open_price * (p.tp_den - p.tp_num)
            ==> !tp_breach(t, c, p),
{
}

/// The engine is deterministic: any two results that satisfy the engine's
/// contract for the same closes and parameters carry identical trades and
/// identical total profit.
pub proof fn lemma_deterministic(a: BacktestResult, b: BacktestResult, closes: Seq<u64>, p: Params)
    requires
        a.trades@ == finished_trades(closes, p),
        a.total_profit == sum_pnl(finished_trades(closes, p)),
        b.trades@ == finished_trades(closes, p),
        b.total_profit == sum_pnl(finished_trades(closes, p)),
    ensures
        a.trades@ == b.trades@,
        a.total_profit == b.total_profit,
{
}

} // verus!
