//! Aggregate statistics over net results: expectancy and median, profit
//! factor, recovery factor, and when a Sharpe ratio is defined. Quotients
//! are reported exactly, as a numerator over a positive denominator.
use vstd::prelude::*;
use vstd::relations::{sorted_by, total_ordering};
use crate::series::{values, DayPoint};
use crate::trades::{
    count_gains, count_losses, gains, losses, net_limit, summarizes, total, NetsSummary,
    MAX_TRADES,
};

verus! {

/// The exact quotient `num / den`; `den` is positive.
#[derive(Clone, Copy, Debug, PartialEq, Eq, Structural)]
pub struct Ratio {
    pub num: i128,
    pub den: i128,
}

/// The quotient `num / den` for a positive count `den`, or zero when the
/// count is zero.
pub open spec fn mean_or_zero(num: int, den: int) -> Ratio {
    if den > 0 {
        Ratio { num: num as i128, den: den as i128 }
    } else {
        Ratio { num: 0, den: 1 }
    }
}

/// Ascending order on amounts.
pub open spec fn ascending() -> spec_fn(i128, i128) -> bool {
    |a: i128, b: i128| a <= b
}

/// The nets in ascending order.
pub open spec fn sorted_nets(nets: Seq<i128>) -> Seq<i128> {
    nets.sort_by(ascending())
}

/// Median of `nets`: the middle value in ascending order, the mean of the
/// two middle values for an even count, zero when there are none.
pub open spec fn median_of(nets: Seq<i128>) -> Ratio {
    let s = sorted_nets(nets);
    let n = nets.len();
    if n == 0 {
        Ratio { num: 0, den: 1 }
    } else if n % 2 == 1 {
        Ratio { num: s[(n / 2) as int], den: 1 }
    } else {
        Ratio { num: (s[n / 2 - 1] + s[(n / 2) as int]) as i128, den: 2 }
    }
}

/// Every net lies strictly within the bound of one net result.
pub open spec fn nets_bounded(nets: Seq<i128>) -> bool {
    forall|i: int| 0 <= i < nets.len() ==> -net_limit() < #[trigger] nets[i] < net_limit()
}

/// A summary that `derive_nets` can produce.
pub open spec fn valid_summary(s: NetsSummary) -> bool {
    &&& summarizes(s)
    &&& nets_bounded(s.nets@)
    &&& s.nets.len() <= MAX_TRADES
}

/// Mean, median and win/loss averages of the nets.
#[derive(Clone, Copy, Debug, PartialEq, Eq, Structural)]
pub struct ExpectancyResult {
    pub expectancy: Ratio,
    pub median: Ratio,
    pub win_rate: Option<Ratio>,
    pub avg_win: Ratio,
    pub avg_loss: Ratio,
    pub trade_count: usize,
}

/// Gross profit over gross loss, with the aggregates it comes from.
#[derive(Clone, Copy, Debug, PartialEq, Eq, Structural)]
pub struct ProfitFactorResult {
    pub profit_factor: Option<Ratio>,
    pub gross_profit: i128,
    pub gross_loss: i128,
    pub wins: usize,
    pub losses: usize,
    pub trade_count: usize,
}

/// Net profit over the largest drawdown.
#[derive(Clone, Copy, Debug, PartialEq, Eq, Structural)]
pub struct RecoveryFactorResult {
    pub recovery_factor: Option<Ratio>,
    pub net_profit: i128,
    pub reference_max_dd: i128,
}

/// Whether a Sharpe ratio is defined over a daily series, and on how many
/// days it would be sampled. The ratio itself is floating-point work left
/// to the caller.
#[derive(Clone, Copy, Debug, PartialEq, Eq, Structural)]
pub struct SharpeBasis {
    pub sample_days: usize,
    pub defined: bool,
}

/// All values of `s` are equal, so their deviation is exactly zero.
pub open spec fn all_equal(s: Seq<i128>) -> bool {
    forall|i: int, j: int| 0 <= i < s.len() && 0 <= j < s.len() ==> s[i] == s[j]
}

/// Expectancy statistics of a list of nets.
pub open spec fn expectancy_of(nets: Seq<i128>) -> ExpectancyResult {
    ExpectancyResult {
        expectancy: mean_or_zero(total(nets), nets.len() as int),
        median: median_of(nets),
        win_rate: if nets.len() > 0 {
            Some(Ratio { num: count_gains(nets) as i128, den: nets.len() as i128 })
        } else {
            None
        },
        avg_win: mean_or_zero(gains(nets), count_gains(nets) as int),
        avg_loss: mean_or_zero(-losses(nets), count_losses(nets) as int),
        trade_count: nets.len() as usize,
    }
}

/// Profit-factor statistics of a list of nets.
pub open spec fn profit_factor_of(nets: Seq<i128>) -> ProfitFactorResult {
    ProfitFactorResult {
        profit_factor: if losses(nets) > 0 {
            Some(Ratio { num: gains(nets) as i128, den: losses(nets) as i128 })
        } else {
            None
        },
        gross_profit: gains(nets) as i128,
        gross_loss: losses(nets) as i128,
        wins: count_gains(nets) as usize,
        losses: count_losses(nets) as usize,
        trade_count: nets.len() as usize,
    }
}

/// Sharpe preconditions of a daily series.
pub open spec fn sharpe_basis_of(daily: Seq<DayPoint>) -> SharpeBasis {
    SharpeBasis {
        sample_days: daily.len() as usize,
        defined: daily.len() >= 2 && !all_equal(values(daily)),
    }
}

/// Sum, over the first `k` values `x` of `s`, of `(n·x − t)²` with `n` the
/// length of `s`. With `t` the total of `s` this is `n²` times the sum of
/// squared deviations from the mean, which a sample variance divides by
/// `n − 1`; shifting every value by the same amount (a risk-free rate)
/// leaves it unchanged.
pub open spec fn scaled_deviation(s: Seq<i128>, t: int, k: nat) -> int
    decreases k,
{
    if k == 0 {
        0
    } else {
        let d = s.len() * s[k - 1] - t;
        scaled_deviation(s, t, (k - 1) as nat) + d * d
    }
}

/// The values of `s` have zero deviation from their mean.
pub open spec fn zero_deviation(s: Seq<i128>) -> bool {
    scaled_deviation(s, total(s), s.len()) == 0
}

proof fn lemma_total_of_constant(s: Seq<i128>, x: i128)
    requires
        forall|i: int| 0 <= i < s.len() ==> s[i] == x,
    ensures
        total(s) == s.len() * x,
    decreases s.len(),
{
    if s.len() > 0 {
        lemma_total_of_constant(s.drop_last(), x);
        let n = s.len() as int;
        assert((n - 1) * x + x == n * x) by (nonlinear_arith);
    }
}

proof fn lemma_deviation_terms(s: Seq<i128>, t: int, k: nat)
    requires
        k <= s.len(),
    ensures
        scaled_deviation(s, t, k) >= 0,
        scaled_deviation(s, t, k) == 0 <==> forall|i: int|
            0 <= i < k ==> #[trigger] (s.len() * s[i]) == t,
    decreases k,
{
    if k > 0 {
        lemma_deviation_terms(s, t, (k - 1) as nat);
        let d = s.len() * s[k - 1] - t;
        assert(d * d >= 0) by (nonlinear_arith);
        assert(d * d == 0 <==> d == 0) by (nonlinear_arith);
    }
}

/// A series has zero deviation from its mean exactly when all its values
/// are equal; so a Sharpe ratio over daily results is undefined exactly
/// when those results are all equal.
pub proof fn lemma_zero_deviation_iff_all_equal(s: Seq<i128>)
    requires
        s.len() >= 1,
    ensures
        zero_deviation(s) <==> all_equal(s),
{
    let n = s.len() as int;
    let t = total(s);
    lemma_deviation_terms(s, t, s.len());
    if all_equal(s) {
        lemma_total_of_constant(s, s[0]);
        assert forall|i: int| 0 <= i < n implies #[trigger] (s.len() * s[i]) == t by {
            assert(s[i] == s[0]);
        }
    }
    if zero_deviation(s) {
        assert forall|i: int, j: int| 0 <= i < n && 0 <= j < n implies s[i] == s[j] by {
            assert(s.len() * s[i] == t);
            assert(s.len() * s[j] == t);
            let a = s[i] as int;
            let b = s[j] as int;
            assert(n * a == n * b ==> a == b) by (nonlinear_arith)
                requires
                    n >= 1,
            ;
        }
    }
}

/// Relies on `slice::sort`: the elements come back in ascending order,
/// none added or lost.
#[verifier::external_body]
fn sort_ascending(v: &mut Vec<i128>)
    ensures
        final(v)@.to_multiset() == old(v)@.to_multiset(),
        sorted_by(final(v)@, ascending()),
{
    v.sort();
}

proof fn lemma_ascending_total()
    ensures
        total_ordering(ascending()),
{
}

proof fn lemma_total_bound(s: Seq<i128>)
    requires
        nets_bounded(s),
    ensures
        -s.len() * net_limit() <= total(s) <= s.len() * net_limit(),
    decreases s.len(),
{
    if s.len() > 0 {
        lemma_total_bound(s.drop_last());
    }
}

proof fn lemma_counts_match_sums(s: Seq<i128>)
    ensures
        0 <= gains(s),
        0 <= losses(s),
        count_gains(s) == 0 <==> gains(s) == 0,
        count_losses(s) == 0 <==> losses(s) == 0,
        count_gains(s) <= s.len(),
    decreases s.len(),
{
    if s.len() > 0 {
        lemma_counts_match_sums(s.drop_last());
    }
}

/// Sum of the nets, proved equal to their total.
fn sum_nets(nets: &Vec<i128>) -> (r: i128)
    requires
        nets_bounded(nets@),
        nets.len() <= MAX_TRADES,
    ensures
        r == total(nets@),
{
    let mut sum: i128 = 0;
    let mut i: usize = 0;
    while i < nets.len()
        invariant
            i <= nets.len() <= MAX_TRADES,
            nets_bounded(nets@),
            sum == total(nets@.subrange(0, i as int)),
        decreases nets.len() - i,
    {
        proof {
            assert(nets@.subrange(0, i + 1).drop_last() =~= nets@.subrange(0, i as int));
            lemma_total_bound(nets@.subrange(0, i + 1));
        }
        sum = sum + nets[i];
        i = i + 1;
    }
    proof {
        assert(nets@.subrange(0, i as int) =~= nets@);
    }
    sum
}

/// Median of the nets: sorts a copy and takes the middle value, or the
/// two middle values over two, or zero for no nets.
pub fn median(nets: &Vec<i128>) -> (r: Ratio)
    requires
        nets_bounded(nets@),
    ensures
        r == median_of(nets@),
{
    let mut sorted = nets.clone();
    sort_ascending(&mut sorted);
    proof {
        lemma_ascending_total();
        nets@.lemma_sort_by_ensures(ascending());
        assert(sorted@.to_multiset() == nets@.to_multiset());
        vstd::seq_lib::lemma_sorted_unique(sorted@, sorted_nets(nets@), ascending());
        assert(sorted@ == sorted_nets(nets@));
        vstd::seq_lib::to_multiset_len(sorted@);
        vstd::seq_lib::to_multiset_len(nets@);
        assert(sorted.len() == nets.len());
    }
    let n = sorted.len();
    if n == 0 {
        Ratio { num: 0, den: 1 }
    } else if n % 2 == 1 {
        Ratio { num: sorted[n / 2], den: 1 }
    } else {
        proof {
            let a = (n / 2 - 1) as int;
            let b = (n / 2) as int;
            vstd::seq_lib::to_multiset_contains(sorted@, sorted@[a]);
            vstd::seq_lib::to_multiset_contains(nets@, sorted@[a]);
            vstd::seq_lib::to_multiset_contains(sorted@, sorted@[b]);
            vstd::seq_lib::to_multiset_contains(nets@, sorted@[b]);
        }
        Ratio { num: sorted[n / 2 - 1] + sorted[n / 2], den: 2 }
    }
}

/// Expectancy statistics of the nets: their mean (zero for none), median,
/// share of winning trades (absent for none), mean winning net and mean
/// losing net, the latter as a negative quotient (each zero for none).
pub fn compute_expectancy(s: &NetsSummary) -> (r: ExpectancyResult)
    requires
        valid_summary(*s),
    ensures
        r == expectancy_of(s.nets@),
        r.trade_count == s.nets.len(),
        r.expectancy == mean_or_zero(total(s.nets@), s.nets.len() as int),
        r.median == median_of(s.nets@),
        r.win_rate == if s.nets.len() > 0 {
            Some(Ratio { num: s.wins_count as i128, den: s.nets.len() as i128 })
        } else {
            None
        },
        r.avg_win == mean_or_zero(gains(s.nets@), count_gains(s.nets@) as int),
        r.avg_loss == mean_or_zero(-losses(s.nets@), count_losses(s.nets@) as int),
{
    let trade_count = s.nets.len();
    proof {
        lemma_counts_match_sums(s.nets@);
    }
    let expectancy = if trade_count > 0 {
        Ratio { num: sum_nets(&s.nets), den: trade_count as i128 }
    } else {
        Ratio { num: 0, den: 1 }
    };
    let median = median(&s.nets);
    let win_rate = if trade_count > 0 {
        Some(Ratio { num: s.wins_count as i128, den: trade_count as i128 })
    } else {
        None
    };
    let avg_win = if s.wins_count > 0 {
        Ratio { num: s.wins_sum, den: s.wins_count as i128 }
    } else {
        Ratio { num: 0, den: 1 }
    };
    let avg_loss = if s.losses_count > 0 {
        Ratio { num: -s.losses_sum_abs, den: s.losses_count as i128 }
    } else {
        Ratio { num: 0, den: 1 }
    };
    ExpectancyResult { expectancy, median, win_rate, avg_win, avg_loss, trade_count }
}

/// Profit factor: gross profit over gross loss, defined only when some
/// trade lost; with wins and no losses it is absent rather than infinite.
pub fn compute_profit_factor(s: &NetsSummary) -> (r: ProfitFactorResult)
    requires
        valid_summary(*s),
    ensures
        r == profit_factor_of(s.nets@),
        r.profit_factor == if s.losses_sum_abs > 0 {
            Some(Ratio { num: s.wins_sum, den: s.losses_sum_abs })
        } else {
            None
        },
        s.losses_count == 0 ==> r.profit_factor is None,
        r.gross_profit == s.wins_sum,
        r.gross_loss == s.losses_sum_abs,
        r.wins == s.wins_count,
        r.losses == s.losses_count,
        r.trade_count == s.nets.len(),
{
    proof {
        lemma_counts_match_sums(s.nets@);
    }
    let profit_factor = if s.losses_sum_abs > 0 {
        Some(Ratio { num: s.wins_sum, den: s.losses_sum_abs })
    } else {
        None
    };
    ProfitFactorResult {
        profit_factor,
        gross_profit: s.wins_sum,
        gross_loss: s.losses_sum_abs,
        wins: s.wins_count,
        losses: s.losses_count,
        trade_count: s.nets.len(),
    }
}

/// Recovery factor: net profit over the largest drawdown, defined only
/// when that drawdown is positive.
pub fn compute_recovery(net_profit: i128, max_dd: i128) -> (r: RecoveryFactorResult)
    ensures
        r.recovery_factor == if max_dd > 0 {
            Some(Ratio { num: net_profit, den: max_dd })
        } else {
            None
        },
        max_dd == 0 ==> r.recovery_factor is None,
        r.net_profit == net_profit,
        r.reference_max_dd == max_dd,
{
    let recovery_factor = if max_dd > 0 {
        Some(Ratio { num: net_profit, den: max_dd })
    } else {
        None
    };
    RecoveryFactorResult { recovery_factor, net_profit, reference_max_dd: max_dd }
}

/// Decides whether a Sharpe ratio exists over the daily series: it needs
/// at least two days, and daily results that are not all equal (equal
/// results have zero deviation, whatever the risk-free rate).
pub fn compute_sharpe(daily: &Vec<DayPoint>) -> (r: SharpeBasis)
    ensures
        r == sharpe_basis_of(daily@),
        r.sample_days == daily.len(),
        r.defined == (daily.len() >= 2 && !all_equal(values(daily@))),
        r.defined == (daily.len() >= 2 && !zero_deviation(values(daily@))),
        daily.len() < 2 ==> !r.defined,
{
    proof {
        if daily.len() >= 1 {
            lemma_zero_deviation_iff_all_equal(values(daily@));
        }
    }
    let ghost vals = values(daily@);
    let n = daily.len();
    if n < 2 {
        return SharpeBasis { sample_days: n, defined: false };
    }
    let first = daily[0].value;
    let mut i: usize = 1;
    while i < n
        invariant
            n == daily.len(),
            vals == values(daily@),
            1 <= i <= n,
            first == vals[0],
            forall|k: int| 0 <= k < i ==> #[trigger] vals[k] == first,
        decreases n - i,
    {
        if daily[i].value != first {
            proof {
                assert(vals[i as int] != vals[0]);
                lemma_zero_deviation_iff_all_equal(vals);
            }
            return SharpeBasis { sample_days: n, defined: true };
        }
        i = i + 1;
    }
    proof {
        lemma_zero_deviation_iff_all_equal(vals);
    }
    SharpeBasis { sample_days: n, defined: false }
}

} // verus!
