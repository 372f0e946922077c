//! Rolling-window band indicator over exact integer closes.
//!
//! The calculator keeps the `period` most recent closes.  Over a full window
//! with sum `s` and sum of squares `q`, the mean is `s / n` and the
//! population variance is `(n * q - s * s) / (n * n)`, so for a multiplier
//! `kn / kd` the strict comparison `close > mean + mult * stddev` is
//! equivalent to
//!
//! `n * close - s > 0  and  (n * close - s)^2 * kd^2 > kn^2 * (n * q - s^2)`
//!
//! (multiply both sides by `n * kd`, then square; both sides are
//! nonnegative).  The mirrored form decides `close < mean - mult * stddev`.
//! Every quantity is an integer, so the band comparisons are exact and no
//! square root is ever taken.

use vstd::prelude::*;

verus! {

use crate::types::BacktestError;
use crate::types::CANDLES_MAX;
use crate::types::PARTS_MAX;
use crate::types::PRICE_MAX;

/// Sum of a sequence of closes.
pub open spec fn sum_of(s: Seq<u64>) -> int
    decreases s.len(),
{
    if s.len() == 0 {
        0
    } else {
        sum_of(s.drop_last()) + s.last()
    }
}

/// Sum of the squares of a sequence of closes.
pub open spec fn sum_sq_of(s: Seq<u64>) -> int
    decreases s.len(),
{
    if s.len() == 0 {
        0
    } else {
        sum_sq_of(s.drop_last()) + s.last() * s.last()
    }
}

/// The close lies strictly above the upper band of window `w` for the
/// multiplier `kn / kd`, decided in squared form.
pub open spec fn breaks_upper(w: Seq<u64>, close: u64, kn: u64, kd: u64) -> bool {
    let n = w.len() as int;
    let s = sum_of(w);
    let q = sum_sq_of(w);
    let d = n * close - s;
    d > 0 && d * d * (kd * kd) > (kn * kn) * (n * q - s * s)
}

/// The close lies strictly below the lower band of window `w` for the
/// multiplier `kn / kd`, decided in squared form.
pub open spec fn breaks_lower(w: Seq<u64>, close: u64, kn: u64, kd: u64) -> bool {
    let n = w.len() as int;
    let s = sum_of(w);
    let q = sum_sq_of(w);
    let d = s - n * close;
    d > 0 && d * d * (kd * kd) > (kn * kn) * (n * q - s * s)
}

/// A sequence whose elements are bounded by `m` has its sum bounded by
/// `len * m`.
pub proof fn lemma_sum_bounds(s: Seq<u64>, m: u64)
    requires
        forall|i: int| 0 <= i < s.len() ==> #[trigger] s[i] <= m,
    ensures
        0 <= sum_of(s) <= s.len() * m,
    decreases s.len(),
{
    if s.len() == 0 {
    } else {
        lemma_sum_bounds(s.drop_last(), m);
        let l = s.len() as int;
        assert((l - 1) * m + m == l * m) by (nonlinear_arith);
    }
}

/// A sequence whose elements are bounded by `m` has its sum of squares
/// bounded by `len * m * m`.
pub proof fn lemma_sum_sq_bounds(s: Seq<u64>, m: u64)
    requires
        forall|i: int| 0 <= i < s.len() ==> #[trigger] s[i] <= m,
    ensures
        0 <= sum_sq_of(s) <= s.len() * (m * m),
    decreases s.len(),
{
    if s.len() == 0 {
    } else {
        lemma_sum_sq_bounds(s.drop_last(), m);
        let l = s.len() as int;
        let x = s.last() as int;
        assert(0 <= x * x <= m * m && (l - 1) * (m * m) + m * m == l * (m * m))
            by (nonlinear_arith)
            requires
                0 <= x <= m,
                l >= 1,
        ;
    }
}

/// The rolling-statistics calculator: a bounded window of the most recent
/// closes, together with the window length and the band multiplier.
#[derive(Debug)]
pub struct Indicator {
    pub period: usize,
    pub mult_num: u64,
    pub mult_den: u64,
    pub window: Vec<u64>,
}

impl Indicator {
    /// Well-formedness: an admissible configuration, a window never longer
    /// than the period, and every stored close within machine limits.
    pub open spec fn wf(self) -> bool {
        &&& 1 <= self.period <= CANDLES_MAX
        &&& 1 <= self.mult_num <= PARTS_MAX
        &&& 1 <= self.mult_den <= PARTS_MAX
        &&& self.window@.len() <= self.period
        &&& forall|i: int|
            0 <= i < self.window@.len() ==> 1 <= #[trigger] self.window@[i] <= PRICE_MAX
    }

    /// Build a calculator with an empty window.  Construction fails exactly
    /// when the window length is zero or the multiplier is not a positive
    /// rational: a configuration error, not a runtime one.
    pub fn new(period: usize, mult_num: u64, mult_den: u64) -> (r: Result<
        Indicator,
        BacktestError,
    >)
        requires
            period <= CANDLES_MAX,
            mult_num <= PARTS_MAX,
            mult_den <= PARTS_MAX,
        ensures
            r is Ok <==> (period >= 1 && mult_num >= 1 && mult_den >= 1),
            r is Err ==> r->Err_0 == BacktestError::InvalidIndicatorConfiguration,
            r is Ok ==> r->Ok_0.wf(),
            r is Ok ==> r->Ok_0.period == period,
            r is Ok ==> r->Ok_0.mult_num == mult_num,
            r is Ok ==> r->Ok_0.mult_den == mult_den,
            r is Ok ==> r->Ok_0.window@.len() == 0,
    {
        if period == 0 || mult_num == 0 || mult_den == 0 {
            Err(BacktestError::InvalidIndicatorConfiguration)
        } else {
            Ok(Indicator { period, mult_num, mult_den, window: Vec::new() })
        }
    }

    /// Feed one close: append it to the window, dropping the oldest close
    /// when the window is already full.
    pub fn consume(&mut self, close: u64)
        requires
            old(self).wf(),
            1 <= close <= PRICE_MAX,
        ensures
            final(self).wf(),
            final(self).period == old(self).period,
            final(self).mult_num == old(self).mult_num,
            final(self).mult_den == old(self).mult_den,
            final(self).window@ == (if old(self).window@.len() == old(self).period {
                old(self).window@.drop_first().push(close)
            } else {
                old(self).window@.push(close)
            }),
    {
        if self.window.len() == self.period {
            self.window.remove(0);
        }
        self.window.push(close);
        proof {
            if old(self).window@.len() == old(self).period {
                assert(self.window@ =~= old(self).window@.drop_first().push(close));
            }
        }
    }

    /// Whether the window holds a full period of closes.
    pub fn is_full(&self) -> (b: bool)
        ensures
            b == (self.window@.len() == self.period),
    {
        self.window.len() == self.period
    }

    /// Recompute the sum and the sum of squares of the window exactly.
    fn sums(&self) -> (r: (u128, u128))
        requires
            self.wf(),
        ensures
            r.0 == sum_of(self.window@),
            r.1 == sum_sq_of(self.window@),
    {
        let mut s: u128 = 0;
        let mut q: u128 = 0;
        let n = self.window.len();
        for i in 0..n
            invariant
                n == self.window@.len(),
                self.wf(),
                s == sum_of(self.window@.take(i as int)),
                q == sum_sq_of(self.window@.take(i as int)),
        {
            let c = self.window[i];
            proof {
                lemma_sum_bounds(self.window@.take(i as int), PRICE_MAX);
                lemma_sum_sq_bounds(self.window@.take(i as int), PRICE_MAX);
                assert(i * 1_000_000_000 <= 10_000_000_000_000
                    && i * (1_000_000_000_000_000_000) <= 10_000_000_000_000_000_000_000
                    && 0 <= (c as int) * (c as int) <= 1_000_000_000_000_000_000)
                    by (nonlinear_arith)
                    requires
                        0 <= i < 10_000,
                        0 <= c <= 1_000_000_000,
                ;
                assert(self.window@.take(i + 1).drop_last() =~= self.window@.take(i as int));
                assert(self.window@.take(i + 1).last() == self.window@[i as int]);
            }
            s = s + c as u128;
            q = q + (c as u128) * (c as u128);
        }
        proof {
            assert(self.window@.take(n as int) =~= self.window@);
        }
        (s, q)
    }

    /// Decide both entry comparisons for `close` over the current full
    /// window: strictly above the upper band, strictly below the lower band.
    /// Both are computed in exact squared form.
    pub fn signals(&self, close: u64) -> (r: (bool, bool))
        requires
            self.wf(),
            self.window@.len() == self.period,
            1 <= close <= PRICE_MAX,
        ensures
            r.0 == breaks_upper(self.window@, close, self.mult_num, self.mult_den),
            r.1 == breaks_lower(self.window@, close, self.mult_num, self.mult_den),
    {
        let (s_raw, q_raw) = self.sums();
        let n = self.window.len();
        proof {
            lemma_sum_bounds(self.window@, PRICE_MAX);
            lemma_sum_sq_bounds(self.window@, PRICE_MAX);
            assert(n * 1_000_000_000 <= 10_000_000_000_000
                && n * (1_000_000_000_000_000_000) <= 10_000_000_000_000_000_000_000)
                by (nonlinear_arith)
                requires
                    0 <= n <= 10_000,
            ;
        }
        let s: i128 = s_raw as i128;
        let q: i128 = q_raw as i128;
        let nn: i128 = n as i128;
        let cc: i128 = close as i128;
        let kn: i128 = self.mult_num as i128;
        let kd: i128 = self.mult_den as i128;
        proof {
            assert(0 <= nn * cc <= 10_000_000_000_000) by (nonlinear_arith)
                requires
                    1 <= nn <= 10_000,
                    1 <= cc <= 1_000_000_000,
            ;
        }
        let nc: i128 = nn * cc;
        let d: i128 = nc - s;
        proof {
            assert(0 <= nn * q <= 100_000_000_000_000_000_000_000_000
                && 0 <= s * s <= 100_000_000_000_000_000_000_000_000)
                by (nonlinear_arith)
                requires
                    1 <= nn <= 10_000,
                    0 <= q <= 10_000_000_000_000_000_000_000,
                    0 <= s <= 10_000_000_000_000,
            ;
        }
        let nq: i128 = nn * q;
        let ss: i128 = s * s;
        let v: i128 = nq - ss;
        proof {
            assert(0 <= d * d <= 400_000_000_000_000_000_000_000_000
                && 0 <= kd * kd <= 10_000_000_000
                && 0 <= kn * kn <= 10_000_000_000)
                by (nonlinear_arith)
                requires
                    -20_000_000_000_000 <= d <= 20_000_000_000_000,
                    1 <= kd <= 100_000,
                    1 <= kn <= 100_000,
            ;
        }
        let dd: i128 = d * d;
        let kdd: i128 = kd * kd;
        let knn: i128 = kn * kn;
        proof {
            assert(0 <= dd * kdd
                <= 4_000_000_000_000_000_000_000_000_000_000_000_000
                && -2_000_000_000_000_000_000_000_000_000_000_000_000 <= knn * v
                <= 2_000_000_000_000_000_000_000_000_000_000_000_000)
                by (nonlinear_arith)
                requires
                    0 <= dd <= 400_000_000_000_000_000_000_000_000,
                    0 <= kdd <= 10_000_000_000,
                    0 <= knn <= 10_000_000_000,
                    -200_000_000_000_000_000_000_000_000 <= v
                        <= 200_000_000_000_000_000_000_000_000,
            ;
            assert((s - nc) * (s - nc) == d * d) by (nonlinear_arith)
                requires
                    d == nc - s,
            ;
        }
        let lhs: i128 = dd * kdd;
        let rhs: i128 = knn * v;
        (d > 0 && lhs > rhs, d < 0 && lhs > rhs)
    }
}

} // verus!
