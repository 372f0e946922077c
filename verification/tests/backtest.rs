use bb_backtest::engine::total_profit;
use bb_backtest::run;
use bb_backtest::types::BacktestError;
use bb_backtest::types::Candle;
use bb_backtest::types::Params;
use bb_backtest::types::Side;
use bb_backtest::types::Ticker;

fn ticker_of(closes: &[u64]) -> Ticker {
    Ticker {
        symbol: "BTCUSD".to_string(),
        exchange: "BINANCE".to_string(),
        candles: closes.iter().map(|&close| Candle { close }).collect(),
    }
}

fn params(period: usize, usd_balance: u64) -> Params {
    Params {
        period,
        mult_num: 1,
        mult_den: 1,
        sl_num: 1,
        sl_den: 10,
        tp_num: 1,
        tp_den: 5,
        usd_balance,
    }
}

#[test]
fn insufficient_data_returns_empty_result() {
    let r = run(ticker_of(&[10, 10]), params(3, 1000)).unwrap();
    assert!(r.trades.is_empty());
    assert_eq!(r.total_profit, 0);
    assert_eq!(r.symbol, "BTCUSD");
    assert_eq!(r.exchange, "BINANCE");
}

#[test]
fn empty_series_returns_empty_result() {
    let r = run(ticker_of(&[]), params(3, 1000)).unwrap();
    assert!(r.trades.is_empty());
    assert_eq!(r.total_profit, 0);
}

#[test]
fn zero_period_is_configuration_error() {
    let r = run(ticker_of(&[10, 11, 12]), params(0, 1000));
    assert_eq!(r.unwrap_err(), BacktestError::InvalidIndicatorConfiguration);
}

#[test]
fn zero_multiplier_numerator_is_configuration_error() {
    let mut p = params(3, 1000);
    p.mult_num = 0;
    let r = run(ticker_of(&[10, 11, 12]), p);
    assert_eq!(r.unwrap_err(), BacktestError::InvalidIndicatorConfiguration);
}

#[test]
fn zero_multiplier_denominator_is_configuration_error() {
    let mut p = params(3, 1000);
    p.mult_den = 0;
    let r = run(ticker_of(&[10, 11, 12]), p);
    assert_eq!(r.unwrap_err(), BacktestError::InvalidIndicatorConfiguration);
}

#[test]
fn zero_stop_loss_denominator_is_parameter_error() {
    let mut p = params(3, 1000);
    p.sl_den = 0;
    let r = run(ticker_of(&[10, 11, 12]), p);
    assert_eq!(r.unwrap_err(), BacktestError::MissingOrInvalidParameter);
}

#[test]
fn zero_take_profit_denominator_is_parameter_error() {
    let mut p = params(3, 1000);
    p.tp_den = 0;
    let r = run(ticker_of(&[10, 11, 12]), p);
    assert_eq!(r.unwrap_err(), BacktestError::MissingOrInvalidParameter);
}

#[test]
fn zero_close_is_rejected() {
    let r = run(ticker_of(&[10, 10, 0, 10]), params(3, 1000));
    assert_eq!(r.unwrap_err(), BacktestError::InvalidClose);
}

#[test]
fn zero_close_in_short_series_still_short_circuits() {
    let r = run(ticker_of(&[0, 10]), params(3, 1000)).unwrap();
    assert!(r.trades.is_empty());
    assert_eq!(r.total_profit, 0);
}

#[test]
fn short_entry_then_stop_loss() {
    let r = run(ticker_of(&[10, 10, 10, 16, 18]), params(3, 1600)).unwrap();
    assert_eq!(r.trades.len(), 1);
    let t = &r.trades[0];
    assert_eq!(t.side, Side::Short);
    assert_eq!(t.open_price, 16);
    assert_eq!(t.close_price, 18);
    assert_eq!(t.amount, 100);
    assert_eq!(r.total_profit, -200);
}

#[test]
fn long_entry_then_take_profit() {
    let r = run(ticker_of(&[10, 10, 10, 4, 5]), params(3, 1000)).unwrap();
    assert_eq!(r.trades.len(), 1);
    let t = &r.trades[0];
    assert_eq!(t.side, Side::Long);
    assert_eq!(t.open_price, 4);
    assert_eq!(t.close_price, 5);
    assert_eq!(t.amount, 250);
    assert_eq!(r.total_profit, 250);
}

#[test]
fn open_position_is_flushed_at_series_end() {
    let r = run(ticker_of(&[10, 10, 10, 16, 17]), params(3, 1600)).unwrap();
    assert_eq!(r.trades.len(), 1);
    let t = &r.trades[0];
    assert_eq!(t.side, Side::Short);
    assert_eq!(t.open_price, 16);
    assert_eq!(t.close_price, 17);
    assert_eq!(t.amount, 100);
    assert_eq!(r.total_profit, -100);
}

#[test]
fn close_exactly_on_band_does_not_open() {
    let mut p = params(2, 1000);
    p.mult_num = 1;
    p.mult_den = 1;
    // With a window of [10, 12] the close 12 sits exactly on the upper band.
    let r = run(ticker_of(&[10, 10, 12]), p).unwrap();
    assert!(r.trades.is_empty());
    assert_eq!(r.total_profit, 0);
}

#[test]
fn close_exactly_on_stop_loss_does_not_close() {
    let mut p = params(3, 1600);
    p.sl_num = 1;
    p.sl_den = 4;
    // Short opens at 16; its stop-loss price is exactly 20, so the close at
    // 20 must not exit, while the later close at 30 must.
    let r = run(ticker_of(&[10, 10, 10, 16, 20, 30]), p).unwrap();
    assert_eq!(r.trades.len(), 1);
    let t = &r.trades[0];
    assert_eq!(t.side, Side::Short);
    assert_eq!(t.open_price, 16);
    assert_eq!(t.close_price, 30);
    assert_eq!(r.total_profit, -1400);
}

#[test]
fn no_new_entry_on_the_closing_candle() {
    // The close at 25 both stops out the short and lies above the upper
    // band of its own window; the exit wins and no new position opens.
    let r = run(ticker_of(&[10, 10, 10, 16, 25, 26]), params(3, 1600)).unwrap();
    assert_eq!(r.trades.len(), 1);
    let t = &r.trades[0];
    assert_eq!(t.side, Side::Short);
    assert_eq!(t.open_price, 16);
    assert_eq!(t.close_price, 25);
    assert_eq!(r.total_profit, -900);
}

#[test]
fn amount_is_the_integer_quotient_of_balance_and_entry() {
    let r = run(ticker_of(&[10, 10, 10, 16, 18]), params(3, 1000)).unwrap();
    assert_eq!(r.trades.len(), 1);
    assert_eq!(r.trades[0].amount, 62);
    assert_eq!(r.total_profit, -124);
}

#[test]
fn series_of_exactly_period_length_trades_nothing() {
    let r = run(ticker_of(&[10, 10, 10]), params(3, 1600)).unwrap();
    assert!(r.trades.is_empty());
    assert_eq!(r.total_profit, 0);
}

#[test]
fn several_trades_accumulate_in_closing_order() {
    let r = run(ticker_of(&[10, 10, 10, 16, 18, 4, 5, 9]), params(3, 1600)).unwrap();
    // Short at 16 stopped out at 18, long at 4 takes profit at 5, and a
    // short opened at 9 is flushed at the final close 9 with zero profit.
    assert_eq!(r.trades.len(), 3);
    assert_eq!(r.trades[0].side, Side::Short);
    assert_eq!((r.trades[0].open_price, r.trades[0].close_price), (16, 18));
    assert_eq!(r.trades[1].side, Side::Long);
    assert_eq!((r.trades[1].open_price, r.trades[1].close_price), (4, 5));
    assert_eq!(r.trades[1].amount, 400);
    assert_eq!(r.trades[2].side, Side::Short);
    assert_eq!((r.trades[2].open_price, r.trades[2].close_price), (9, 9));
    assert_eq!(r.total_profit, -200 + 400 + 0);
}

#[test]
fn total_profit_matches_recomputation_from_trades() {
    let r = run(ticker_of(&[10, 10, 10, 16, 18, 4, 5, 9]), params(3, 1600)).unwrap();
    assert_eq!(r.total_profit, total_profit(&r.trades));
}

#[test]
fn identical_inputs_give_identical_output() {
    let closes: &[u64] = &[10, 10, 10, 16, 18, 4, 5, 9, 30, 2];
    let a = run(ticker_of(closes), params(3, 1600)).unwrap();
    let b = run(ticker_of(closes), params(3, 1600)).unwrap();
    assert_eq!(a, b);
}

#[test]
fn symbol_and_exchange_pass_through() {
    let mut t = ticker_of(&[10, 10, 10, 16, 18]);
    t.symbol = "ETHUSD".to_string();
    t.exchange = "KRAKEN".to_string();
    let r = run(t, params(3, 1600)).unwrap();
    assert_eq!(r.symbol, "ETHUSD");
    assert_eq!(r.exchange, "KRAKEN");
}
