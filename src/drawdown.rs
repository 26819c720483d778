//! Maximum drawdown of an equity curve, with the peak and trough it runs
//! between and the number of days until the curve regains the peak.
use vstd::prelude::*;
use crate::series::DayPoint;
use crate::trades::sum_limit;

verus! {

/// Running peak after the first `n` points of `eq`: the largest value seen
/// so far, and never below zero, the level every curve starts from.
pub open spec fn peak_upto(eq: Seq<DayPoint>, n: nat) -> int
    decreases n,
{
    if n == 0 {
        0
    } else {
        let p = peak_upto(eq, (n - 1) as nat);
        let v = eq[n - 1].value as int;
        if v > p {
            v
        } else {
            p
        }
    }
}

/// Decline of point `i` below the running peak up to and including it.
pub open spec fn drawdown_at(eq: Seq<DayPoint>, i: int) -> int {
    peak_upto(eq, (i + 1) as nat) - eq[i].value
}

/// Largest drawdown among the first `n` points, zero when there is none.
pub open spec fn max_drawdown_upto(eq: Seq<DayPoint>, n: nat) -> int
    decreases n,
{
    if n == 0 {
        0
    } else {
        let m = max_drawdown_upto(eq, (n - 1) as nat);
        let d = drawdown_at(eq, n - 1);
        if d > m {
            d
        } else {
            m
        }
    }
}

/// Largest drawdown of the whole curve.
pub open spec fn max_drawdown(eq: Seq<DayPoint>) -> int {
    max_drawdown_upto(eq, eq.len())
}

/// First index in `[start, n)` that satisfies `p`, or `n` when none does.
pub open spec fn first_index(n: int, start: int, p: spec_fn(int) -> bool) -> int
    decreases n - start,
{
    if start >= n {
        n
    } else if p(start) {
        start
    } else {
        first_index(n, start + 1, p)
    }
}

/// Index of the first point at which the largest drawdown is reached.
pub open spec fn trough_index(eq: Seq<DayPoint>) -> int {
    first_index(eq.len() as int, 0, |i: int| drawdown_at(eq, i) == max_drawdown(eq))
}

/// Running peak in force at the trough.
pub open spec fn trough_peak(eq: Seq<DayPoint>) -> int {
    peak_upto(eq, (trough_index(eq) + 1) as nat)
}

/// Index of the first point that reached the peak in force at the trough.
pub open spec fn peak_index(eq: Seq<DayPoint>) -> int {
    first_index(eq.len() as int, 0, |j: int| eq[j].value == trough_peak(eq))
}

/// Index of the first point, from the trough on, back at or above the peak.
pub open spec fn recovery_index(eq: Seq<DayPoint>) -> int {
    first_index(
        eq.len() as int,
        trough_index(eq),
        |k: int| eq[k].value >= eq[peak_index(eq)].value,
    )
}

/// Result of a drawdown scan.
#[derive(Clone, Copy, Debug, PartialEq, Eq, Structural)]
pub struct DrawdownResult {
    pub max_dd_abs: i128,
    pub peak_date: Option<i32>,
    pub trough_date: Option<i32>,
    pub recovery_days: Option<i64>,
}

/// Every value of the curve lies strictly within the sum bound.
pub open spec fn curve_in_range(eq: Seq<DayPoint>) -> bool {
    forall|k: int| 0 <= k < eq.len() ==> -sum_limit() < (#[trigger] eq[k]).value < sum_limit()
}

/// What `compute_drawdown` reports for the curve `eq`.
pub open spec fn drawdown_of(eq: Seq<DayPoint>, r: DrawdownResult) -> bool {
    let t = trough_index(eq);
    let p = peak_index(eq);
    let rec = recovery_index(eq);
    &&& r.max_dd_abs == max_drawdown(eq)
    &&& r.trough_date == if max_drawdown(eq) > 0 {
        Some(eq[t].day)
    } else {
        None
    }
    &&& r.peak_date == if max_drawdown(eq) > 0 && trough_peak(eq) > 0 {
        Some(eq[p].day)
    } else {
        None
    }
    &&& r.recovery_days == if max_drawdown(eq) > 0 && trough_peak(eq) > 0 && rec < eq.len() {
        Some((rec - t) as i64)
    } else {
        None
    }
}

/// Point `p` is the first to reach the value `v`.
pub open spec fn first_reach(eq: Seq<DayPoint>, p: int, v: int) -> bool {
    &&& eq[p].value == v
    &&& forall|j: int| 0 <= j < p ==> (#[trigger] eq[j]).value < v
}

/// Scan state: `peak_idx` marks the point that set the running peak `peak`.
spec fn tracks_peak(eq: Seq<DayPoint>, peak: int, peak_idx: Option<usize>, i: int) -> bool {
    match peak_idx {
        None => peak == 0,
        Some(j) => peak > 0 && j < i && first_reach(eq, j as int, peak),
    }
}

/// Scan state: `trough` marks the first point of the largest drawdown
/// `max_dd` seen so far, and `dd_peak` the peak in force there.
spec fn tracks_trough(
    eq: Seq<DayPoint>,
    max_dd: int,
    trough: Option<usize>,
    dd_peak: Option<usize>,
    i: int,
) -> bool {
    match trough {
        None => max_dd == 0 && dd_peak is None,
        Some(t) => {
            &&& max_dd > 0
            &&& t < i
            &&& drawdown_at(eq, t as int) == max_dd
            &&& forall|t2: int| 0 <= t2 < t ==> #[trigger] drawdown_at(eq, t2) < max_dd
            &&& match dd_peak {
                None => peak_upto(eq, (t + 1) as nat) == 0,
                Some(p) => peak_upto(eq, (t + 1) as nat) > 0 && p <= t && first_reach(
                    eq,
                    p as int,
                    peak_upto(eq, (t + 1) as nat),
                ),
            }
        },
    }
}

proof fn lemma_first_index_found(n: int, start: int, k: int, p: spec_fn(int) -> bool)
    requires
        start <= k < n,
        p(k),
        forall|j: int| start <= j < k ==> !#[trigger] p(j),
    ensures
        first_index(n, start, p) == k,
    decreases k - start,
{
    if start < k {
        lemma_first_index_found(n, start + 1, k, p);
    }
}

proof fn lemma_first_index_none(n: int, start: int, p: spec_fn(int) -> bool)
    requires
        forall|j: int| start <= j < n ==> !#[trigger] p(j),
    ensures
        first_index(n, start, p) == n,
    decreases n - start,
{
    if start < n {
        lemma_first_index_none(n, start + 1, p);
    }
}

/// The largest drawdown seen is never negative, never shrinks as the scan
/// goes on, and bounds the drawdown of every point scanned.
pub proof fn lemma_drawdown_monotone(eq: Seq<DayPoint>, i: nat, j: nat)
    requires
        i <= j <= eq.len(),
    ensures
        0 <= max_drawdown_upto(eq, i) <= max_drawdown_upto(eq, j),
        forall|k: int| 0 <= k < j ==> 0 <= #[trigger] drawdown_at(eq, k) <= max_drawdown_upto(eq, j),
    decreases j,
{
    if j > 0 {
        let jm = (j - 1) as nat;
        lemma_peak_bounds(eq, j);
        if i < j {
            lemma_drawdown_monotone(eq, i, jm);
        } else {
            lemma_drawdown_monotone(eq, jm, jm);
        }
        assert forall|k: int| 0 <= k < j implies 0 <= #[trigger] drawdown_at(eq, k)
            <= max_drawdown_upto(eq, j) by {
            if k < jm {
                lemma_drawdown_monotone(eq, jm, jm);
            }
            lemma_peak_bounds(eq, (k + 1) as nat);
        }
    }
}

proof fn lemma_peak_bounds(eq: Seq<DayPoint>, n: nat)
    requires
        n <= eq.len(),
    ensures
        peak_upto(eq, n) >= 0,
        forall|k: int| 0 <= k < n ==> (#[trigger] eq[k]).value <= peak_upto(eq, n),
    decreases n,
{
    if n > 0 {
        lemma_peak_bounds(eq, (n - 1) as nat);
    }
}

/// Scans the equity curve once, tracking the running peak (starting from
/// zero) and the largest decline below it. Ties move neither the peak nor
/// the trough: the first point to reach a value wins. When the largest
/// drawdown is positive and followed a positive peak, counts the days from
/// the trough to the first point back at or above that peak, if any.
pub fn compute_drawdown(equity: &Vec<DayPoint>) -> (r: DrawdownResult)
    requires
        curve_in_range(equity@),
        equity.len() <= i64::MAX,
    ensures
        drawdown_of(equity@, r),
        r.max_dd_abs >= 0,
        r.recovery_days matches Some(d) ==> d >= 0,
{
    let ghost eq = equity@;
    let mut peak: i128 = 0;
    let mut peak_idx: Option<usize> = None;
    let mut max_dd: i128 = 0;
    let mut dd_peak_idx: Option<usize> = None;
    let mut trough_idx: Option<usize> = None;
    let mut i: usize = 0;
    while i < equity.len()
        invariant
            eq == equity@,
            curve_in_range(eq),
            i <= eq.len(),
            peak == peak_upto(eq, i as nat),
            0 <= peak < sum_limit(),
            tracks_peak(eq, peak as int, peak_idx, i as int),
            max_dd == max_drawdown_upto(eq, i as nat),
            tracks_trough(eq, max_dd as int, trough_idx, dd_peak_idx, i as int),
        decreases eq.len() - i,
    {
        proof {
            lemma_drawdown_monotone(eq, i as nat, i as nat);
            lemma_peak_bounds(eq, i as nat);
        }
        let v = equity[i].value;
        if v > peak {
            peak = v;
            peak_idx = Some(i);
        }
        let dd = peak - v;
        if dd > max_dd {
            max_dd = dd;
            dd_peak_idx = peak_idx;
            trough_idx = Some(i);
        }
        proof {
            lemma_drawdown_monotone(eq, i as nat, (i + 1) as nat);
        }
        i = i + 1;
    }
    proof {
        lemma_drawdown_monotone(eq, eq.len(), eq.len());
    }
    assert(max_dd == max_drawdown(eq));
    let mut recovery_days: Option<i64> = None;
    let mut peak_date: Option<i32> = None;
    let mut trough_date: Option<i32> = None;
    if let Some(t) = trough_idx {
        trough_date = Some(equity[t].day);
        proof {
            let pt = |i2: int| drawdown_at(eq, i2) == max_drawdown(eq);
            lemma_first_index_found(eq.len() as int, 0, t as int, pt);
            assert(trough_index(eq) == t);
        }
        if let Some(p) = dd_peak_idx {
            peak_date = Some(equity[p].day);
            let prior_peak_val = equity[p].value;
            proof {
                let pp = |j: int| eq[j].value == trough_peak(eq);
                lemma_first_index_found(eq.len() as int, 0, p as int, pp);
                assert(peak_index(eq) == p);
            }
            let mut k: usize = t;
            while k < equity.len()
                invariant_except_break
                    recovery_days is None,
                invariant
                    eq == equity@,
                    eq.len() <= i64::MAX,
                    t <= k <= eq.len(),
                    prior_peak_val == eq[peak_index(eq)].value,
                    trough_index(eq) == t,
                    forall|j: int| t <= j < k ==> (#[trigger] eq[j]).value < prior_peak_val,
                ensures
                    recovery_days is None ==> forall|j: int|
                        t <= j < eq.len() ==> (#[trigger] eq[j]).value < prior_peak_val,
                    recovery_days matches Some(d) ==> d == recovery_index(eq) - t && d >= 0
                        && recovery_index(eq) < eq.len(),
                decreases eq.len() - k,
            {
                if equity[k].value >= prior_peak_val {
                    recovery_days = Some((k - t) as i64);
                    proof {
                        let pr = |k2: int| eq[k2].value >= eq[peak_index(eq)].value;
                        lemma_first_index_found(eq.len() as int, t as int, k as int, pr);
                    }
                    break;
                }
                k = k + 1;
            }
            proof {
                if recovery_days is None {
                    let pr = |k2: int| eq[k2].value >= eq[peak_index(eq)].value;
                    lemma_first_index_none(eq.len() as int, t as int, pr);
                }
            }
        }
    }
    DrawdownResult { max_dd_abs: max_dd, peak_date, trough_date, recovery_days }
}

} // verus!
