use chrono::{Datelike, NaiveDate};
use trade_metrics::drawdown::compute_drawdown;
use trade_metrics::metrics::{compute_metrics, latest_exit, MetricsError};
use trade_metrics::series::{daily_from_rows, equity_from_daily, DayPoint};
use trade_metrics::stats::{compute_recovery, compute_sharpe, median, Ratio};
use trade_metrics::trades::{derive_nets, net_of, Status, TradeRecord};

fn day(y: i32, m: u32, d: u32) -> i32 {
    NaiveDate::from_ymd_opt(y, m, d).unwrap().num_days_from_ce()
}

fn closed(exit_day: i32, gross_pnl: i64, fee: i64) -> TradeRecord {
    TradeRecord { exit_day, status: Status::Closed, gross_pnl, fee }
}

fn values(points: &[DayPoint]) -> Vec<i128> {
    points.iter().map(|p| p.value).collect()
}

#[test]
fn one_winning_trade_in_five_day_window() {
    let from = day(2024, 1, 1);
    let to = day(2024, 1, 5);
    let trades = vec![closed(day(2024, 1, 3), 100, 0)];
    let m = compute_metrics(&trades, from, to).unwrap();
    assert_eq!(values(&m.daily), vec![0, 0, 100, 0, 0]);
    assert_eq!(values(&m.equity), vec![0, 0, 100, 100, 100]);
    let days: Vec<i32> = m.daily.iter().map(|p| p.day).collect();
    assert_eq!(days, (from..=to).collect::<Vec<i32>>());
    assert_eq!(m.drawdown.max_dd_abs, 0);
    assert_eq!(m.drawdown.peak_date, None);
    assert_eq!(m.drawdown.trough_date, None);
    assert_eq!(m.drawdown.recovery_days, None);
    assert_eq!(m.profit_factor.profit_factor, None);
    assert_eq!(m.expectancy.expectancy, Ratio { num: 100, den: 1 });
    assert_eq!(m.expectancy.trade_count, 1);
    assert_eq!(m.recovery.recovery_factor, None);
    assert_eq!(m.recovery.net_profit, 100);
}

#[test]
fn rise_then_fall_gives_unrecovered_drawdown() {
    let from = day(2024, 1, 1);
    let to = day(2024, 1, 4);
    let trades = vec![closed(day(2024, 1, 2), 50, 0), closed(day(2024, 1, 3), -30, 0)];
    let m = compute_metrics(&trades, from, to).unwrap();
    assert_eq!(values(&m.equity), vec![0, 50, 20, 20]);
    assert_eq!(m.drawdown.max_dd_abs, 30);
    assert_eq!(m.drawdown.peak_date, Some(day(2024, 1, 2)));
    assert_eq!(m.drawdown.trough_date, Some(day(2024, 1, 3)));
    assert_eq!(m.drawdown.recovery_days, None);
    assert_eq!(m.recovery.recovery_factor, Some(Ratio { num: 20, den: 30 }));
    assert_eq!(m.profit_factor.profit_factor, Some(Ratio { num: 50, den: 30 }));
}

#[test]
fn drawdown_recovers_when_equity_regains_peak() {
    let from = day(2024, 3, 1);
    let to = day(2024, 3, 6);
    let trades = vec![
        closed(day(2024, 3, 1), 50, 0),
        closed(day(2024, 3, 2), -30, 0),
        closed(day(2024, 3, 3), -10, 0),
        closed(day(2024, 3, 5), 45, 0),
    ];
    let m = compute_metrics(&trades, from, to).unwrap();
    assert_eq!(values(&m.equity), vec![50, 20, 10, 10, 55, 55]);
    assert_eq!(m.drawdown.max_dd_abs, 40);
    assert_eq!(m.drawdown.peak_date, Some(day(2024, 3, 1)));
    assert_eq!(m.drawdown.trough_date, Some(day(2024, 3, 3)));
    assert_eq!(m.drawdown.recovery_days, Some(2));
}

#[test]
fn drawdown_from_zero_when_window_starts_negative() {
    let equity = vec![
        DayPoint { day: 10, value: -20 },
        DayPoint { day: 11, value: -5 },
    ];
    let d = compute_drawdown(&equity);
    assert_eq!(d.max_dd_abs, 20);
    assert_eq!(d.peak_date, None);
    assert_eq!(d.trough_date, Some(10));
    assert_eq!(d.recovery_days, None);
}

#[test]
fn drawdown_ties_keep_first_peak_and_first_trough() {
    let equity = vec![
        DayPoint { day: 1, value: 40 },
        DayPoint { day: 2, value: 10 },
        DayPoint { day: 3, value: 40 },
        DayPoint { day: 4, value: 10 },
        DayPoint { day: 5, value: 40 },
    ];
    let d = compute_drawdown(&equity);
    assert_eq!(d.max_dd_abs, 30);
    assert_eq!(d.peak_date, Some(1));
    assert_eq!(d.trough_date, Some(2));
    assert_eq!(d.recovery_days, Some(1));
}

#[test]
fn drawdown_of_empty_curve_is_zero() {
    let d = compute_drawdown(&Vec::new());
    assert_eq!(d.max_dd_abs, 0);
    assert_eq!(d.trough_date, None);
}

#[test]
fn drawdown_never_decreases_along_the_scan() {
    let equity: Vec<DayPoint> = [5, -3, 8, 2, 9, -4, 1]
        .iter()
        .enumerate()
        .map(|(i, v)| DayPoint { day: i as i32, value: *v })
        .collect();
    let mut last = 0;
    for n in 0..=equity.len() {
        let d = compute_drawdown(&equity[..n].to_vec());
        assert!(d.max_dd_abs >= 0);
        assert!(d.max_dd_abs >= last);
        last = d.max_dd_abs;
    }
    assert_eq!(last, 13);
}

#[test]
fn median_of_odd_count_is_middle_value() {
    assert_eq!(median(&vec![20, -10, 5]), Ratio { num: 5, den: 1 });
}

#[test]
fn median_of_even_count_averages_middle_pair() {
    assert_eq!(median(&vec![20, -10]), Ratio { num: 10, den: 2 });
    assert_eq!(median(&vec![7, 1, 3, 9]), Ratio { num: 10, den: 2 });
}

#[test]
fn median_of_no_nets_is_zero() {
    assert_eq!(median(&Vec::new()), Ratio { num: 0, den: 1 });
}

#[test]
fn expectancy_statistics_of_mixed_trades() {
    let d = day(2024, 6, 3);
    let trades = vec![closed(d, -5, 5), closed(d, 10, 5), closed(d, 25, 5), closed(d, 5, 5)];
    let m = compute_metrics(&trades, d, d).unwrap();
    let e = m.expectancy;
    assert_eq!(e.trade_count, 4);
    assert_eq!(e.expectancy, Ratio { num: 15, den: 4 });
    assert_eq!(e.median, Ratio { num: 5, den: 2 });
    assert_eq!(e.win_rate, Some(Ratio { num: 2, den: 4 }));
    assert_eq!(e.avg_win, Ratio { num: 25, den: 2 });
    assert_eq!(e.avg_loss, Ratio { num: -10, den: 1 });
    let pf = m.profit_factor;
    assert_eq!(pf.gross_profit, 25);
    assert_eq!(pf.gross_loss, 10);
    assert_eq!(pf.wins, 2);
    assert_eq!(pf.losses, 1);
    assert_eq!(pf.trade_count, 4);
    assert_eq!(pf.profit_factor, Some(Ratio { num: 25, den: 10 }));
}

#[test]
fn no_trades_gives_zero_and_absent_metrics() {
    let d = day(2024, 2, 1);
    let m = compute_metrics(&Vec::new(), d, d + 2).unwrap();
    assert_eq!(values(&m.daily), vec![0, 0, 0]);
    assert_eq!(m.expectancy.expectancy, Ratio { num: 0, den: 1 });
    assert_eq!(m.expectancy.median, Ratio { num: 0, den: 1 });
    assert_eq!(m.expectancy.win_rate, None);
    assert_eq!(m.expectancy.avg_win, Ratio { num: 0, den: 1 });
    assert_eq!(m.expectancy.avg_loss, Ratio { num: 0, den: 1 });
    assert_eq!(m.profit_factor.profit_factor, None);
    assert_eq!(m.recovery.recovery_factor, None);
    assert_eq!(m.sharpe.sample_days, 3);
    assert!(!m.sharpe.defined);
}

#[test]
fn wins_without_losses_have_no_profit_factor() {
    let d = day(2024, 2, 1);
    let trades = vec![closed(d, 30, 0), closed(d, 0, 0)];
    let m = compute_metrics(&trades, d, d).unwrap();
    assert_eq!(m.profit_factor.losses, 0);
    assert_eq!(m.profit_factor.wins, 1);
    assert_eq!(m.profit_factor.profit_factor, None);
}

#[test]
fn recovery_factor_absent_without_drawdown() {
    let r = compute_recovery(500, 0);
    assert_eq!(r.recovery_factor, None);
    assert_eq!(r.net_profit, 500);
    let r = compute_recovery(90, 30);
    assert_eq!(r.recovery_factor, Some(Ratio { num: 90, den: 30 }));
    assert_eq!(r.reference_max_dd, 30);
}

#[test]
fn sharpe_needs_two_days_and_varying_results() {
    let one = vec![DayPoint { day: 1, value: 10 }];
    assert!(!compute_sharpe(&one).defined);
    assert_eq!(compute_sharpe(&one).sample_days, 1);
    let flat = vec![DayPoint { day: 1, value: 10 }, DayPoint { day: 2, value: 10 }];
    assert!(!compute_sharpe(&flat).defined);
    let varied = vec![DayPoint { day: 1, value: 10 }, DayPoint { day: 2, value: -3 }];
    assert!(compute_sharpe(&varied).defined);
    assert_eq!(compute_sharpe(&varied).sample_days, 2);
}

#[test]
fn daily_values_add_up_to_final_equity() {
    let from = day(2024, 4, 1);
    let to = day(2024, 4, 10);
    let trades = vec![
        closed(day(2024, 4, 2), 120, 2),
        closed(day(2024, 4, 2), -40, 1),
        closed(day(2024, 4, 7), -75, 3),
        closed(day(2024, 4, 10), 33, 0),
    ];
    let daily = daily_from_rows(from, to, &trades);
    let equity = equity_from_daily(&daily);
    assert_eq!(daily.len(), 10);
    assert_eq!(daily[1].value, 77);
    let sum: i128 = daily.iter().map(|p| p.value).sum();
    assert_eq!(sum, equity.last().unwrap().value);
    assert_eq!(sum, 32);
}

#[test]
fn net_subtracts_fee() {
    assert_eq!(net_of(&closed(1, 100, 10)), 90);
    assert_eq!(net_of(&closed(1, i64::MIN, i64::MAX)), i64::MIN as i128 - i64::MAX as i128);
    let s = derive_nets(&vec![closed(1, 100, 10), closed(1, 5, 5), closed(1, 0, 7)]);
    assert_eq!(s.nets, vec![90, 0, -7]);
    assert_eq!(s.wins_sum, 90);
    assert_eq!(s.losses_sum_abs, 7);
    assert_eq!(s.wins_count, 1);
    assert_eq!(s.losses_count, 1);
}

#[test]
fn inverted_window_is_rejected() {
    let r = compute_metrics(&Vec::new(), 10, 9);
    assert!(matches!(r, Err(MetricsError::InvertedWindow)));
}

#[test]
fn open_trade_is_rejected() {
    let t = TradeRecord { exit_day: 5, status: Status::Open, gross_pnl: 1, fee: 0 };
    let r = compute_metrics(&vec![closed(5, 1, 0), t], 1, 9);
    assert!(matches!(r, Err(MetricsError::OpenTrade)));
}

#[test]
fn exit_outside_window_is_rejected() {
    let r = compute_metrics(&vec![closed(5, 1, 0), closed(12, 1, 0)], 1, 9);
    assert!(matches!(r, Err(MetricsError::ExitOutsideWindow)));
}

#[test]
fn latest_exit_takes_the_last_of_equal_times() {
    assert_eq!(latest_exit(&vec![]), None);
    assert_eq!(latest_exit(&vec![5, 9, 3]), Some(1));
    assert_eq!(latest_exit(&vec![9, 2, 9, 1]), Some(2));
}
