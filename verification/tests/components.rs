use bb_backtest::engine::exit_check;
use bb_backtest::indicator::Indicator;
use bb_backtest::types::BacktestError;
use bb_backtest::types::ClosedTrade;
use bb_backtest::types::OpenTrade;
use bb_backtest::types::Params;
use bb_backtest::types::Side;

fn params(sl_num: u64, sl_den: u64, tp_num: u64, tp_den: u64) -> Params {
    Params {
        period: 3,
        mult_num: 1,
        mult_den: 1,
        sl_num,
        sl_den,
        tp_num,
        tp_den,
        usd_balance: 1000,
    }
}

#[test]
fn indicator_rejects_zero_period() {
    assert_eq!(
        Indicator::new(0, 1, 1).unwrap_err(),
        BacktestError::InvalidIndicatorConfiguration
    );
}

#[test]
fn indicator_rejects_zero_multiplier_parts() {
    assert_eq!(
        Indicator::new(3, 0, 1).unwrap_err(),
        BacktestError::InvalidIndicatorConfiguration
    );
    assert_eq!(
        Indicator::new(3, 1, 0).unwrap_err(),
        BacktestError::InvalidIndicatorConfiguration
    );
}

#[test]
fn indicator_window_fills_then_slides() {
    let mut ind = Indicator::new(2, 1, 1).unwrap();
    assert!(!ind.is_full());
    ind.consume(10);
    assert!(!ind.is_full());
    ind.consume(11);
    assert!(ind.is_full());
    ind.consume(12);
    assert!(ind.is_full());
    assert_eq!(ind.window, vec![11, 12]);
}

#[test]
fn signals_fire_only_outside_the_bands() {
    let mut ind = Indicator::new(3, 1, 1).unwrap();
    ind.consume(10);
    ind.consume(10);
    ind.consume(16);
    // Window [10, 10, 16]: mean 12, variance 8, band offset sqrt(8) < 4.
    assert_eq!(ind.signals(16), (true, false));

    let mut low = Indicator::new(3, 1, 1).unwrap();
    low.consume(10);
    low.consume(10);
    low.consume(4);
    assert_eq!(low.signals(4), (false, true));

    let mut flat = Indicator::new(3, 1, 1).unwrap();
    flat.consume(10);
    flat.consume(11);
    flat.consume(12);
    // 11 is the mean of [10, 11, 12]: inside the bands on both sides.
    assert_eq!(flat.signals(11), (false, false));
}

#[test]
fn signal_on_the_exact_band_is_not_a_breach() {
    // Window [10, 12] with multiplier 1: mean 11, stddev 1, upper band 12.
    let mut ind = Indicator::new(2, 1, 1).unwrap();
    ind.consume(10);
    ind.consume(12);
    assert_eq!(ind.signals(12), (false, false));
}

#[test]
fn exit_check_is_strict_on_both_prices() {
    let p = params(1, 4, 1, 5);
    let short = OpenTrade { open_price: 16, amount: 100, side: Side::Short };
    // Stop-loss price is exactly 20, take-profit price is exactly 12.8.
    assert!(!exit_check(&short, 20, &p));
    assert!(exit_check(&short, 21, &p));
    assert!(!exit_check(&short, 13, &p));
    assert!(exit_check(&short, 12, &p));

    let long = OpenTrade { open_price: 20, amount: 50, side: Side::Long };
    // Stop-loss price is exactly 15, take-profit price is exactly 24.
    let q = params(1, 4, 1, 5);
    assert!(!exit_check(&long, 15, &q));
    assert!(exit_check(&long, 14, &q));
    assert!(!exit_check(&long, 24, &q));
    assert!(exit_check(&long, 25, &q));
}

#[test]
fn pnl_is_signed_by_side() {
    let long = ClosedTrade { open_price: 4, close_price: 5, amount: 250, side: Side::Long };
    assert_eq!(long.pnl(), 250);
    let short = ClosedTrade { open_price: 16, close_price: 18, amount: 100, side: Side::Short };
    assert_eq!(short.pnl(), -200);
    let losing_long = ClosedTrade { open_price: 10, close_price: 7, amount: 3, side: Side::Long };
    assert_eq!(losing_long.pnl(), -9);
}
