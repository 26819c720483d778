//! One metrics computation over the closed trades of a window of days.
use vstd::prelude::*;
use crate::drawdown::{compute_drawdown, drawdown_of, DrawdownResult};
use crate::series::{
    daily_from_rows, equity_from_daily, final_value, is_daily_series, is_equity_curve,
    DayPoint,
};
use crate::stats::{
    compute_expectancy, compute_profit_factor, compute_recovery, compute_sharpe, expectancy_of,
    profit_factor_of, sharpe_basis_of, ExpectancyResult, ProfitFactorResult,
    RecoveryFactorResult, Ratio, SharpeBasis,
};
use crate::trades::{derive_nets, trade_nets, Status, TradeRecord, MAX_TRADES};

verus! {

/// A request that breaks the engine's contract with its caller.
#[derive(Clone, Copy, Debug, PartialEq, Eq, Structural)]
pub enum MetricsError {
    /// The window's first day is after its last day.
    InvertedWindow,
    /// A trade that is not closed was handed in.
    OpenTrade,
    /// A trade exits outside the window.
    ExitOutsideWindow,
}

/// Every metric of one request.
pub struct MetricsReport {
    pub from: i32,
    pub to: i32,
    pub daily: Vec<DayPoint>,
    pub equity: Vec<DayPoint>,
    pub drawdown: DrawdownResult,
    pub sharpe: SharpeBasis,
    pub expectancy: ExpectancyResult,
    pub recovery: RecoveryFactorResult,
    pub profit_factor: ProfitFactorResult,
}

/// Some trade of `ts` is not closed.
pub open spec fn has_open_trade(ts: Seq<TradeRecord>) -> bool {
    exists|i: int| 0 <= i < ts.len() && (#[trigger] ts[i]).status != Status::Closed
}

/// Some trade of `ts` exits outside `[from, to]`.
pub open spec fn has_exit_outside(ts: Seq<TradeRecord>, from: int, to: int) -> bool {
    exists|i: int| 0 <= i < ts.len() && !(from <= (#[trigger] ts[i]).exit_day <= to)
}

/// The error, if any, that a request over `ts` and `[from, to]` meets
/// first: an inverted window, then a trade that is not closed, then an
/// exit outside the window.
pub open spec fn request_error(ts: Seq<TradeRecord>, from: int, to: int) -> Option<MetricsError> {
    if from > to {
        Some(MetricsError::InvertedWindow)
    } else if has_open_trade(ts) {
        Some(MetricsError::OpenTrade)
    } else if has_exit_outside(ts, from, to) {
        Some(MetricsError::ExitOutsideWindow)
    } else {
        None
    }
}

/// `m` holds the metrics of the trades `ts` over `[from, to]`.
pub open spec fn reports(ts: Seq<TradeRecord>, from: int, to: int, m: MetricsReport) -> bool {
    &&& m.from == from
    &&& m.to == to
    &&& is_daily_series(ts, from, to, m.daily@)
    &&& is_equity_curve(m.daily@, m.equity@)
    &&& drawdown_of(m.equity@, m.drawdown)
    &&& m.sharpe == sharpe_basis_of(m.daily@)
    &&& m.expectancy == expectancy_of(trade_nets(ts))
    &&& m.profit_factor == profit_factor_of(trade_nets(ts))
    &&& m.recovery.net_profit == final_value(m.equity@)
    &&& m.recovery.reference_max_dd == m.drawdown.max_dd_abs
    &&& m.recovery.recovery_factor == if m.drawdown.max_dd_abs > 0 {
        Some(Ratio { num: m.recovery.net_profit, den: m.drawdown.max_dd_abs })
    } else {
        None
    }
}

/// `k` is the latest of the exit times `times`, the last one on ties.
pub open spec fn is_latest(times: Seq<i64>, k: int) -> bool {
    &&& 0 <= k < times.len()
    &&& forall|j: int| 0 <= j < k ==> #[trigger] times[j] <= times[k]
    &&& forall|j: int| k < j < times.len() ==> #[trigger] times[j] < times[k]
}

/// Index of the latest exit time, the last one among equal latest times;
/// `None` for no times. The trade it picks supplies the risk-free rate.
pub fn latest_exit(times: &Vec<i64>) -> (r: Option<usize>)
    ensures
        r is None <==> times.len() == 0,
        r matches Some(k) ==> is_latest(times@, k as int),
{
    if times.len() == 0 {
        return None;
    }
    let mut best: usize = 0;
    let mut i: usize = 1;
    while i < times.len()
        invariant
            1 <= i <= times.len(),
            best < i,
            forall|j: int| 0 <= j < best ==> #[trigger] times@[j] <= times@[best as int],
            forall|j: int| best < j < i ==> #[trigger] times@[j] < times@[best as int],
        decreases times.len() - i,
    {
        if times[i] >= times[best] {
            best = i;
        }
        i = i + 1;
    }
    Some(best)
}

/// Finds the first contract breach of a request, if any.
pub fn check_request(trades: &Vec<TradeRecord>, from: i32, to: i32) -> (r: Option<MetricsError>)
    ensures
        r == request_error(trades@, from as int, to as int),
{
    if from > to {
        return Some(MetricsError::InvertedWindow);
    }
    let mut i: usize = 0;
    while i < trades.len()
        invariant
            from <= to,
            i <= trades.len(),
            forall|k: int| 0 <= k < i ==> (#[trigger] trades@[k]).status == Status::Closed,
        decreases trades.len() - i,
    {
        if trades[i].status != Status::Closed {
            assert(trades@[i as int].status != Status::Closed);
            assert(has_open_trade(trades@));
            return Some(MetricsError::OpenTrade);
        }
        i = i + 1;
    }
    assert(!has_open_trade(trades@));
    let mut j: usize = 0;
    while j < trades.len()
        invariant
            from <= to,
            !has_open_trade(trades@),
            j <= trades.len(),
            forall|k: int| 0 <= k < j ==> from <= (#[trigger] trades@[k]).exit_day <= to,
        decreases trades.len() - j,
    {
        let day = trades[j].exit_day;
        if day < from || day > to {
            assert(!(from <= trades@[j as int].exit_day <= to));
            assert(has_exit_outside(trades@, from as int, to as int));
            return Some(MetricsError::ExitOutsideWindow);
        }
        j = j + 1;
    }
    None
}

/// Computes every metric of the closed trades `trades` over the window
/// `[from, to]`, or the request's first contract breach.
pub fn compute_metrics(trades: &Vec<TradeRecord>, from: i32, to: i32) -> (r: Result<
    MetricsReport,
    MetricsError,
>)
    requires
        trades.len() <= MAX_TRADES,
    ensures
        match request_error(trades@, from as int, to as int) {
            Some(e) => r == Err::<MetricsReport, MetricsError>(e),
            None => r matches Ok(m) && reports(trades@, from as int, to as int, m),
        },
{
    if let Some(e) = check_request(trades, from, to) {
        return Err(e);
    }
    let summary = derive_nets(trades);
    let daily = daily_from_rows(from, to, trades);
    let equity = equity_from_daily(&daily);
    let drawdown = compute_drawdown(&equity);
    let sharpe = compute_sharpe(&daily);
    let expectancy = compute_expectancy(&summary);
    let profit_factor = compute_profit_factor(&summary);
    let net_profit: i128 = if equity.len() > 0 {
        equity[equity.len() - 1].value
    } else {
        0
    };
    let recovery = compute_recovery(net_profit, drawdown.max_dd_abs);
    Ok(MetricsReport { from, to, daily, equity, drawdown, sharpe, expectancy, recovery, profit_factor })
}

} // verus!
