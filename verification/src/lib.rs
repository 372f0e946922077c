//! A mean-reversion backtest engine driven by Bollinger bands.
//!
//! The engine consumes an ordered series of candle closes together with
//! strategy parameters (window length, band multiplier, stop-loss and
//! take-profit fractions, a per-trade balance) and simulates a
//! single-position trading strategy: it opens a short position when a close
//! rises strictly above the upper band, opens a long position when a close
//! falls strictly below the lower band, closes an open position on a strict
//! stop-loss or take-profit breach, and force-closes any position left open
//! at the end of the series.  It reports the closed trades in closing order
//! together with the total realized profit.
//!
//! All prices are exact unsigned integers in a price unit chosen by the
//! caller, and the fractional parameters are exact rationals, so every run
//! is deterministic and every comparison is exact.  Band comparisons are
//! evaluated in squared form, which decides `close > mean + k * stddev`
//! exactly without ever computing a square root.

pub mod engine;
pub mod indicator;
pub mod laws;
pub mod types;

pub use engine::run;
