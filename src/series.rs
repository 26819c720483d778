//! The zero-filled daily net series over a window of days and the equity
//! curve built from it.
use vstd::prelude::*;
use crate::trades::{net, net_of, net_limit, sum_limit, total, TradeRecord, MAX_TRADES};

verus! {

/// A value attached to one day: a day's net result, or the cumulative
/// result up to and including that day.
#[derive(Clone, Copy, Debug, PartialEq, Eq, Structural)]
pub struct DayPoint {
    pub day: i32,
    pub value: i128,
}

/// Sum of the nets of the trades of `ts` that exit on `day`.
pub open spec fn day_total(ts: Seq<TradeRecord>, day: int) -> int
    decreases ts.len(),
{
    if ts.len() == 0 {
        0
    } else {
        day_total(ts.drop_last(), day) + if ts.last().exit_day == day {
            net(ts.last())
        } else {
            0
        }
    }
}

/// The values of a series of points, in order.
pub open spec fn values(s: Seq<DayPoint>) -> Seq<i128> {
    s.map_values(|p: DayPoint| p.value)
}

/// Sum of the magnitudes of the values of `s`.
pub open spec fn magnitude(s: Seq<i128>) -> int
    decreases s.len(),
{
    if s.len() == 0 {
        0
    } else {
        magnitude(s.drop_last()) + if s.last() < 0 { -s.last() } else { s.last() as int }
    }
}

/// `s` lists every day of `[from, to]` in order, each with the total net
/// of the trades of `ts` that exit on it (zero where none does).
pub open spec fn is_daily_series(ts: Seq<TradeRecord>, from: int, to: int, s: Seq<DayPoint>) -> bool {
    &&& s.len() == to - from + 1
    &&& forall|k: int|
        0 <= k < s.len() ==> (#[trigger] s[k]).day == from + k && s[k].value == day_total(ts, from + k)
}

/// Cumulative result after the first `k + 1` points of a daily series.
pub open spec fn running_total(daily: Seq<DayPoint>, k: int) -> int {
    total(values(daily).subrange(0, k + 1))
}

/// `equity` has one point per point of `daily`, on the same day, holding
/// the running total of the daily values up to that day.
pub open spec fn is_equity_curve(daily: Seq<DayPoint>, equity: Seq<DayPoint>) -> bool {
    &&& equity.len() == daily.len()
    &&& forall|k: int|
        0 <= k < equity.len() ==> (#[trigger] equity[k]).day == daily[k].day && equity[k].value
            == running_total(daily, k)
}

/// Last value of a curve, or zero for an empty curve.
pub open spec fn final_value(s: Seq<DayPoint>) -> int {
    if s.len() == 0 {
        0
    } else {
        s.last().value as int
    }
}

proof fn lemma_magnitude_update(s: Seq<i128>, k: int, v: i128)
    requires
        0 <= k < s.len(),
    ensures
        magnitude(s.update(k, v)) == magnitude(s) - (if s[k] < 0 { -s[k] } else { s[k] as int })
            + (if v < 0 { -v } else { v as int }),
    decreases s.len(),
{
    if k == s.len() - 1 {
        assert(s.update(k, v).drop_last() =~= s.drop_last());
    } else {
        assert(s.update(k, v).drop_last() =~= s.drop_last().update(k, v));
        lemma_magnitude_update(s.drop_last(), k, v);
    }
}

proof fn lemma_magnitude_bounds_each(s: Seq<i128>, k: int)
    requires
        0 <= k < s.len(),
    ensures
        -magnitude(s) <= s[k] <= magnitude(s),
    decreases s.len(),
{
    lemma_magnitude_nonneg(s.drop_last());
    if k < s.len() - 1 {
        lemma_magnitude_bounds_each(s.drop_last(), k);
    }
}

proof fn lemma_magnitude_nonneg(s: Seq<i128>)
    ensures
        magnitude(s) >= 0,
    decreases s.len(),
{
    if s.len() > 0 {
        lemma_magnitude_nonneg(s.drop_last());
    }
}

proof fn lemma_magnitude_prefix(s: Seq<i128>, i: int)
    requires
        0 <= i <= s.len(),
    ensures
        magnitude(s.subrange(0, i)) <= magnitude(s),
        -magnitude(s.subrange(0, i)) <= total(s.subrange(0, i)) <= magnitude(s.subrange(0, i)),
    decreases s.len(),
{
    if i == s.len() {
        assert(s.subrange(0, i) =~= s);
        lemma_total_within_magnitude(s);
    } else {
        assert(s.drop_last().subrange(0, i) =~= s.subrange(0, i));
        lemma_magnitude_prefix(s.drop_last(), i);
    }
}

proof fn lemma_total_within_magnitude(s: Seq<i128>)
    ensures
        -magnitude(s) <= total(s) <= magnitude(s),
    decreases s.len(),
{
    if s.len() > 0 {
        lemma_total_within_magnitude(s.drop_last());
    }
}

/// Builds the daily net series over `[from, to]`: every day of the window
/// in order, each holding the summed nets of the trades that exit on it,
/// zero on days without exits. Trades that exit outside the window add
/// to no day.
pub fn daily_from_rows(from: i32, to: i32, rows: &Vec<TradeRecord>) -> (r: Vec<DayPoint>)
    requires
        from <= to,
        rows.len() <= MAX_TRADES,
    ensures
        is_daily_series(rows@, from as int, to as int, r@),
        magnitude(values(r@)) <= rows.len() * net_limit(),
{
    let mut daily: Vec<DayPoint> = Vec::new();
    let mut d: i64 = from as i64;
    while d <= to as i64
        invariant
            from <= d <= to as int + 1,
            daily.len() == d - from,
            forall|k: int|
                0 <= k < daily.len() ==> (#[trigger] daily@[k]).day == from + k && daily@[k].value
                    == 0,
            magnitude(values(daily@)) == 0,
        decreases to as int + 1 - d,
    {
        let ghost before = daily@;
        daily.push(DayPoint { day: d as i32, value: 0 });
        assert(values(daily@).drop_last() =~= values(before));
        d = d + 1;
    }
    let mut i: usize = 0;
    while i < rows.len()
        invariant
            i <= rows.len() <= MAX_TRADES,
            daily.len() == to - from + 1,
            forall|k: int|
                0 <= k < daily.len() ==> (#[trigger] daily@[k]).day == from + k && daily@[k].value
                    == day_total(rows@.subrange(0, i as int), from + k),
            magnitude(values(daily@)) <= i * net_limit(),
        decreases rows.len() - i,
    {
        let t = rows[i];
        let n = net_of(&t);
        proof {
            assert(rows@.subrange(0, i + 1).drop_last() =~= rows@.subrange(0, i as int));
        }
        if from <= t.exit_day && t.exit_day <= to {
            let idx: usize = (t.exit_day as i64 - from as i64) as usize;
            let ghost before = daily@;
            proof {
                lemma_magnitude_bounds_each(values(daily@), idx as int);
            }
            let v = daily[idx].value + n;
            daily[idx] = DayPoint { day: t.exit_day, value: v };
            proof {
                assert(values(daily@) =~= values(before).update(idx as int, v));
                lemma_magnitude_update(values(before), idx as int, v);
            }
        }
        i = i + 1;
    }
    proof {
        assert(rows@.subrange(0, i as int) =~= rows@);
    }
    daily
}

/// Builds the equity curve of a daily series: one point per day, in order,
/// holding the cumulative net result up to and including that day.
pub fn equity_from_daily(daily: &Vec<DayPoint>) -> (r: Vec<DayPoint>)
    requires
        magnitude(values(daily@)) <= sum_limit(),
    ensures
        is_equity_curve(daily@, r@),
        forall|k: int|
            0 <= k < r.len() ==> -magnitude(values(daily@)) <= (#[trigger] r@[k]).value
                <= magnitude(values(daily@)),
{
    let ghost vals = values(daily@);
    let mut equity: Vec<DayPoint> = Vec::new();
    let mut cum: i128 = 0;
    let mut i: usize = 0;
    while i < daily.len()
        invariant
            i <= daily.len(),
            vals == values(daily@),
            magnitude(vals) <= sum_limit(),
            equity.len() == i,
            cum == total(vals.subrange(0, i as int)),
            forall|k: int|
                0 <= k < i ==> (#[trigger] equity@[k]).day == daily@[k].day && equity@[k].value
                    == running_total(daily@, k),
            forall|k: int|
                0 <= k < i ==> -magnitude(vals) <= (#[trigger] equity@[k]).value <= magnitude(vals),
        decreases daily.len() - i,
    {
        proof {
            lemma_magnitude_prefix(vals, i + 1);
            assert(vals.subrange(0, i + 1).drop_last() =~= vals.subrange(0, i as int));
        }
        cum = cum + daily[i].value;
        equity.push(DayPoint { day: daily[i].day, value: cum });
        i = i + 1;
    }
    equity
}

/// The daily values of a window add up to the last point of its equity
/// curve, and to zero for an empty window.
pub proof fn lemma_daily_sum_is_final_equity(daily: Seq<DayPoint>, equity: Seq<DayPoint>)
    requires
        is_equity_curve(daily, equity),
    ensures
        total(values(daily)) == final_value(equity),
{
    if daily.len() > 0 {
        assert(values(daily).subrange(0, daily.len() as int) =~= values(daily));
        assert(equity[equity.len() - 1].value == running_total(daily, daily.len() - 1));
    }
}

} // verus!
