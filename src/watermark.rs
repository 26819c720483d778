//! Heatmap of winning trades by week of the last year and by watermark
//! band, and its labelled points.
use chrono::Datelike;
use vstd::prelude::*;
use crate::text::{append_decimal, append_two_digits, decimal_text, two_digit_text};

verus! {

/// Lower bound of the lowest watermark band, in percentage points.
pub const MIN_WATERMARK: u32 = 20;

/// Upper bound (exclusive) of the highest watermark band.
pub const MAX_WATERMARK: u32 = 40;

/// Number of weekly buckets; later exits fall into the last one.
pub const WEEK_COUNT: u32 = 52;

/// Length of the lookback window ending on the requested day.
pub const LOOKBACK_DAYS: i64 = 365;

/// Largest decimal scale a watermark may carry.
pub const MAX_SCALE: u32 = 28;

/// A decimal watermark: `mantissa / 10^scale`, as a fraction (`0.25`) or
/// already in percentage points (`25`).
#[derive(Clone, Copy, Debug, PartialEq, Eq, Structural)]
pub struct WatermarkValue {
    pub mantissa: i128,
    pub scale: u32,
}

/// One winning closed trade: its exit day and its watermark.
#[derive(Clone, Copy, Debug, PartialEq, Eq, Structural)]
pub struct WatermarkTrade {
    pub exit_day: i32,
    pub watermark: WatermarkValue,
}

/// Number of trades in one (week, band) cell. `week` counts from zero;
/// `week_start` is the day number the week begins on; `band` is the
/// band's lower bound, the band being `[band, band + 1)`.
#[derive(Clone, Copy, Debug, PartialEq, Eq, Structural)]
pub struct HeatCell {
    pub week: u32,
    pub week_start: i64,
    pub band: u32,
    pub count: u64,
}

/// The non-empty cells in order of week, then band, with the scanned
/// watermark range `[min_watermark, max_watermark)`.
#[derive(Debug)]
pub struct WatermarkHeatmap {
    pub cells: Vec<HeatCell>,
    pub min_watermark: u32,
    pub max_watermark: u32,
}

pub open spec fn pow10(n: nat) -> int
    decreases n,
{
    if n == 0 {
        1
    } else {
        10 * pow10((n - 1) as nat)
    }
}

/// The decimal limits of a watermark: at most 28 digits of scale and a
/// 96-bit mantissa.
pub open spec fn valid_watermark(w: WatermarkValue) -> bool {
    &&& w.scale <= MAX_SCALE
    &&& -0x1_0000_0000_0000_0000_0000_0000 < w.mantissa < 0x1_0000_0000_0000_0000_0000_0000
}

/// Mantissa of the watermark in percentage points, at the watermark's own
/// scale: a value strictly between 0 and 1 is a fraction and is scaled by
/// 100; any other value is taken as it is.
pub open spec fn percent_mantissa(w: WatermarkValue) -> int {
    if 0 < w.mantissa < pow10(w.scale as nat) {
        w.mantissa * 100
    } else {
        w.mantissa as int
    }
}

/// The watermark, in percentage points, lies in `[k, k + 1)`.
pub open spec fn in_band(w: WatermarkValue, k: int) -> bool {
    k * pow10(w.scale as nat) <= percent_mantissa(w) < (k + 1) * pow10(w.scale as nat)
}

/// The band of a watermark: the `k` in `[MIN_WATERMARK, MAX_WATERMARK)` with
/// the value in `[k, k + 1)`, or none outside the scanned range.
pub open spec fn band_of(w: WatermarkValue) -> Option<int> {
    let d = pow10(w.scale as nat);
    let v = percent_mantissa(w);
    if MIN_WATERMARK * d <= v < MAX_WATERMARK * d {
        Some(v / d)
    } else {
        None
    }
}

/// First day of the lookback window ending on `to`.
pub open spec fn year_start(to: int) -> int {
    to - LOOKBACK_DAYS
}

/// Week of an exit: whole weeks since the window's start, clamped to the
/// buckets that exist.
pub open spec fn week_of(day: int, to: int) -> int {
    let diff = day - year_start(to);
    if diff < 0 {
        0
    } else if diff / 7 >= WEEK_COUNT {
        WEEK_COUNT - 1
    } else {
        diff / 7
    }
}

/// Number of trades of `ts` whose exit falls in week `w` and whose
/// watermark falls in band `b`.
pub open spec fn cell_count(ts: Seq<WatermarkTrade>, to: int, w: int, b: int) -> nat
    decreases ts.len(),
{
    if ts.len() == 0 {
        0
    } else {
        cell_count(ts.drop_last(), to, w, b) + if week_of(ts.last().exit_day as int, to) == w
            && band_of(ts.last().watermark) == Some(b) {
            1nat
        } else {
            0nat
        }
    }
}

/// Position of the (week, band) cell in week-major order.
pub open spec fn cell_key(w: int, b: int) -> int {
    w * (MAX_WATERMARK - MIN_WATERMARK) + (b - MIN_WATERMARK)
}

/// `cells` lists exactly the non-empty cells of the heatmap of `ts`, each
/// once, in week-major order, with its count and its week's first day.
pub open spec fn is_heatmap(ts: Seq<WatermarkTrade>, to: int, cells: Seq<HeatCell>) -> bool {
    &&& forall|i: int|
        0 <= i < cells.len() ==> {
            let c = #[trigger] cells[i];
            &&& c.week < WEEK_COUNT
            &&& MIN_WATERMARK <= c.band < MAX_WATERMARK
            &&& c.week_start == year_start(to) + 7 * c.week
            &&& c.count == cell_count(ts, to, c.week as int, c.band as int)
            &&& c.count > 0
        }
    &&& forall|i: int, j: int|
        0 <= i < j < cells.len() ==> cell_key(cells[i].week as int, cells[i].band as int)
            < cell_key(cells[j].week as int, cells[j].band as int)
    &&& forall|w: int, b: int|
        0 <= w < WEEK_COUNT && MIN_WATERMARK <= b < MAX_WATERMARK && cell_count(ts, to, w, b) > 0
            ==> exists|i: int|
            0 <= i < cells.len() && (#[trigger] cells[i]).week == w && cells[i].band == b
}

proof fn lemma_pow10_bounds(n: nat)
    requires
        n <= MAX_SCALE,
    ensures
        1 <= pow10(n) <= pow10(MAX_SCALE as nat),
        pow10(MAX_SCALE as nat) == 10_000_000_000_000_000_000_000_000_000,
    decreases MAX_SCALE - n,
{
    reveal_with_fuel(pow10, 29);
    if n < MAX_SCALE {
        lemma_pow10_bounds(n + 1);
        lemma_pow10_positive(n);
    }
}

proof fn lemma_pow10_positive(n: nat)
    ensures
        pow10(n) >= 1,
    decreases n,
{
    if n > 0 {
        lemma_pow10_positive((n - 1) as nat);
    }
}

/// `10^scale`.
fn scale_factor(scale: u32) -> (r: i128)
    requires
        scale <= MAX_SCALE,
    ensures
        r == pow10(scale as nat),
        1 <= r <= 10_000_000_000_000_000_000_000_000_000,
{
    proof {
        lemma_pow10_bounds(scale as nat);
    }
    let mut d: i128 = 1;
    let mut k: u32 = 0;
    while k < scale
        invariant
            k <= scale <= MAX_SCALE,
            d == pow10(k as nat),
        decreases scale - k,
    {
        proof {
            lemma_pow10_bounds(k as nat);
            lemma_pow10_bounds((k + 1) as nat);
        }
        d = d * 10;
        k = k + 1;
    }
    proof {
        lemma_pow10_bounds(scale as nat);
    }
    d
}

/// Band of a watermark: normalizes a fraction strictly between 0 and 1 to
/// percentage points, then returns the lower bound of the unit band in
/// `[MIN_WATERMARK, MAX_WATERMARK)` that holds it, if any.
pub fn watermark_band(w: &WatermarkValue) -> (r: Option<u32>)
    requires
        valid_watermark(*w),
    ensures
        r matches Some(b) ==> band_of(*w) == Some(b as int) && in_band(*w, b as int)
            && MIN_WATERMARK <= b < MAX_WATERMARK,
        r is None ==> band_of(*w) is None,
{
    let d = scale_factor(w.scale);
    let v: i128 = if 0 < w.mantissa && w.mantissa < d {
        w.mantissa * 100
    } else {
        w.mantissa
    };
    let lo: i128 = MIN_WATERMARK as i128 * d;
    let hi: i128 = MAX_WATERMARK as i128 * d;
    if lo <= v && v < hi {
        let k = v / d;
        proof {
            assert(k * d <= v < (k + 1) * d) by (nonlinear_arith)
                requires
                    k == v / d,
                    d >= 1,
            ;
            assert(MIN_WATERMARK <= k < MAX_WATERMARK) by (nonlinear_arith)
                requires
                    k == v / d,
                    d >= 1,
                    MIN_WATERMARK * d <= v < MAX_WATERMARK * d,
            ;
        }
        Some(k as u32)
    } else {
        None
    }
}

/// Week bucket of an exit day for the lookback window ending on `to`.
pub fn week_index(exit_day: i32, to: i32) -> (r: u32)
    ensures
        r == week_of(exit_day as int, to as int),
        r < WEEK_COUNT,
{
    let diff: i64 = exit_day as i64 - (to as i64 - LOOKBACK_DAYS);
    if diff < 0 {
        0
    } else if diff / 7 >= WEEK_COUNT as i64 {
        WEEK_COUNT - 1
    } else {
        (diff / 7) as u32
    }
}

/// Counts winning trades by (week of the last year, watermark band). The
/// window runs from 365 days before `to`; weeks count whole weeks from its
/// start, clamped to the 52 buckets; watermarks between 0 and 1 are read
/// as fractions and scaled to percentage points; trades outside the band
/// range are dropped. Returns the non-empty cells in week-major order.
pub fn compute_watermark_heatmap(trades: &Vec<WatermarkTrade>, to: i32) -> (r: WatermarkHeatmap)
    requires
        forall|i: int| 0 <= i < trades.len() ==> valid_watermark((#[trigger] trades@[i]).watermark),
    ensures
        is_heatmap(trades@, to as int, r.cells@),
        r.min_watermark == MIN_WATERMARK,
        r.max_watermark == MAX_WATERMARK,
{
    let bands: u32 = MAX_WATERMARK - MIN_WATERMARK;
    let size: usize = (WEEK_COUNT * bands) as usize;
    let mut grid: Vec<u64> = Vec::new();
    let mut g: usize = 0;
    while g < size
        invariant
            g <= size == WEEK_COUNT * (MAX_WATERMARK - MIN_WATERMARK),
            grid.len() == g,
            forall|k: int| 0 <= k < g ==> #[trigger] grid@[k] == 0,
        decreases size - g,
    {
        grid.push(0);
        g = g + 1;
    }
    let mut i: usize = 0;
    while i < trades.len()
        invariant
            i <= trades.len(),
            size == WEEK_COUNT * (MAX_WATERMARK - MIN_WATERMARK),
            bands == MAX_WATERMARK - MIN_WATERMARK,
            grid.len() == size,
            forall|k: int| 0 <= k < trades.len() ==> valid_watermark((#[trigger] trades@[k]).watermark),
            forall|w: int, b: int|
                0 <= w < WEEK_COUNT && MIN_WATERMARK <= b < MAX_WATERMARK ==> #[trigger] grid@[cell_key(w, b)]
                    == cell_count(trades@.subrange(0, i as int), to as int, w, b),
            forall|k: int| 0 <= k < size ==> #[trigger] grid@[k] <= i,
        decreases trades.len() - i,
    {
        let t = trades[i];
        let band = watermark_band(&t.watermark);
        let week = week_index(t.exit_day, to);
        proof {
            assert(trades@.subrange(0, i + 1).drop_last() =~= trades@.subrange(0, i as int));
        }
        if let Some(b) = band {
            let idx: usize = (week * bands + (b - MIN_WATERMARK)) as usize;
            assert(idx == cell_key(week as int, b as int));
            let c = grid[idx];
            grid[idx] = c + 1;
            proof {
                assert forall|w: int, b2: int|
                    0 <= w < WEEK_COUNT && MIN_WATERMARK <= b2 < MAX_WATERMARK implies #[trigger] grid@[cell_key(w, b2)]
                        == cell_count(trades@.subrange(0, i + 1), to as int, w, b2) by {
                    if cell_key(w, b2) == idx {
                        assert(w == week && b2 == b);
                    }
                }
            }
        }
        i = i + 1;
    }
    proof {
        assert(trades@.subrange(0, i as int) =~= trades@);
    }
    let ghost ys = to as int - LOOKBACK_DAYS;
    let mut cells: Vec<HeatCell> = Vec::new();
    let mut w: u32 = 0;
    while w < WEEK_COUNT
        invariant
            w <= WEEK_COUNT,
            bands == MAX_WATERMARK - MIN_WATERMARK,
            ys == to - LOOKBACK_DAYS,
            grid.len() == size == WEEK_COUNT * (MAX_WATERMARK - MIN_WATERMARK),
            forall|w2: int, b: int|
                0 <= w2 < WEEK_COUNT && MIN_WATERMARK <= b < MAX_WATERMARK ==> #[trigger] grid@[cell_key(w2, b)]
                    == cell_count(trades@, to as int, w2, b),
            forall|k: int|
                0 <= k < cells.len() ==> {
                    let c = #[trigger] cells@[k];
                    &&& c.week < w
                    &&& MIN_WATERMARK <= c.band < MAX_WATERMARK
                    &&& c.week_start == ys + 7 * c.week
                    &&& c.count == cell_count(trades@, to as int, c.week as int, c.band as int)
                    &&& c.count > 0
                },
            forall|k: int, j: int|
                0 <= k < j < cells.len() ==> cell_key(cells@[k].week as int, cells@[k].band as int)
                    < cell_key(cells@[j].week as int, cells@[j].band as int),
            forall|w2: int, b: int|
                0 <= w2 < w && MIN_WATERMARK <= b < MAX_WATERMARK && cell_count(trades@, to as int, w2, b) > 0
                    ==> exists|k: int|
                    0 <= k < cells.len() && (#[trigger] cells@[k]).week == w2 && cells@[k].band == b,
        decreases WEEK_COUNT - w,
    {
        let week_start: i64 = to as i64 - LOOKBACK_DAYS + 7 * w as i64;
        let mut b: u32 = MIN_WATERMARK;
        while b < MAX_WATERMARK
            invariant
                w < WEEK_COUNT,
                MIN_WATERMARK <= b <= MAX_WATERMARK,
                bands == MAX_WATERMARK - MIN_WATERMARK,
                ys == to - LOOKBACK_DAYS,
                week_start == ys + 7 * w,
                grid.len() == size == WEEK_COUNT * (MAX_WATERMARK - MIN_WATERMARK),
                forall|w2: int, b2: int|
                    0 <= w2 < WEEK_COUNT && MIN_WATERMARK <= b2 < MAX_WATERMARK ==> #[trigger] grid@[cell_key(w2, b2)]
                        == cell_count(trades@, to as int, w2, b2),
                forall|k: int|
                    0 <= k < cells.len() ==> {
                        let c = #[trigger] cells@[k];
                        &&& (c.week < w || (c.week == w && c.band < b))
                        &&& MIN_WATERMARK <= c.band < MAX_WATERMARK
                        &&& c.week_start == ys + 7 * c.week
                        &&& c.count == cell_count(trades@, to as int, c.week as int, c.band as int)
                        &&& c.count > 0
                    },
                forall|k: int, j: int|
                    0 <= k < j < cells.len() ==> cell_key(cells@[k].week as int, cells@[k].band as int)
                        < cell_key(cells@[j].week as int, cells@[j].band as int),
                forall|w2: int, b2: int|
                    ((0 <= w2 < w && MIN_WATERMARK <= b2 < MAX_WATERMARK) || (w2 == w && MIN_WATERMARK <= b2 < b))
                        && cell_count(trades@, to as int, w2, b2) > 0 ==> exists|k: int|
                        0 <= k < cells.len() && (#[trigger] cells@[k]).week == w2 && cells@[k].band == b2,
            decreases MAX_WATERMARK - b,
        {
            let idx: usize = (w * bands + (b - MIN_WATERMARK)) as usize;
            assert(idx == cell_key(w as int, b as int));
            let count = grid[idx];
            if count > 0 {
                let ghost before = cells@;
                cells.push(HeatCell { week: w, week_start, band: b, count });
                proof {
                    assert forall|w2: int, b2: int|
                        ((0 <= w2 < w && MIN_WATERMARK <= b2 < MAX_WATERMARK) || (w2 == w && MIN_WATERMARK <= b2 < b + 1))
                            && cell_count(trades@, to as int, w2, b2) > 0 implies exists|k: int|
                            0 <= k < cells.len() && (#[trigger] cells@[k]).week == w2 && cells@[k].band == b2 by {
                        if w2 == w && b2 == b {
                            assert(cells@[cells.len() - 1].week == w2);
                        } else {
                            let k = choose|k: int|
                                0 <= k < before.len() && (#[trigger] before[k]).week == w2 && before[k].band == b2;
                            assert(cells@[k] == before[k]);
                        }
                    }
                }
            }
            b = b + 1;
        }
        w = w + 1;
    }
    WatermarkHeatmap { cells, min_watermark: MIN_WATERMARK, max_watermark: MAX_WATERMARK }
}

/// Day number of the first date chrono represents, 1 January 262144 BCE.
pub const FIRST_CALENDAR_DAY: i32 = -95746129;

/// Day number of the last date chrono represents, 31 December 262142 CE.
pub const LAST_CALENDAR_DAY: i32 = 95745399;

/// Calendar month and day of the date with the given day number, day 1
/// being 1 January of year 1.
pub uninterp spec fn month_day_of(days_from_ce: int) -> (int, int);

/// Relies on chrono's `NaiveDate::from_num_days_from_ce_opt` (day 1 is
/// 0001-01-01; a date exactly for the day numbers of `NaiveDate::MIN` to
/// `NaiveDate::MAX`) and on its `Datelike::month` and `Datelike::day`,
/// which lie in 1..=12 and 1..=31.
#[verifier::external_body]
fn calendar_month_day(days_from_ce: i32) -> (r: Option<(u32, u32)>)
    ensures
        r matches Some(md) ==> (md.0 as int, md.1 as int) == month_day_of(days_from_ce as int) && 1
            <= md.0 <= 12 && 1 <= md.1 <= 31,
        r is Some <==> FIRST_CALENDAR_DAY <= days_from_ce <= LAST_CALENDAR_DAY,
{
    match chrono::NaiveDate::from_num_days_from_ce_opt(days_from_ce) {
        Some(date) => Some((date.month(), date.day())),
        None => None,
    }
}

/// `Wnn-mm/dd`: the week's number from 1, then the month and day its
/// first day falls on, each in two digits.
pub open spec fn week_label(week_number: nat, month: nat, day: nat) -> Seq<char> {
    seq!['W'] + two_digit_text(week_number) + seq!['-'] + two_digit_text(month) + seq!['/']
        + two_digit_text(day)
}

/// One labelled heatmap point: the week label, the band label and the
/// number of trades in that cell.
#[derive(Debug)]
pub struct WatermarkDataPoint {
    pub x: String,
    pub y: String,
    pub value: i32,
}

/// Every cell lies in the heatmap's week and band ranges.
pub open spec fn cells_in_range(cells: Seq<HeatCell>) -> bool {
    forall|i: int|
        0 <= i < cells.len() ==> (#[trigger] cells[i]).week < WEEK_COUNT && MIN_WATERMARK
            <= cells[i].band < MAX_WATERMARK
}

/// Cell `c` can be labelled: its week starts on a calendar date and its
/// count fits an `i32`.
pub open spec fn label_fits(c: HeatCell) -> bool {
    &&& c.count <= i32::MAX
    &&& FIRST_CALENDAR_DAY <= c.week_start <= LAST_CALENDAR_DAY
}

/// `p` labels cell `c`, given the calendar month and day of its first day.
pub open spec fn labels(c: HeatCell, p: WatermarkDataPoint) -> bool {
    let md = month_day_of(c.week_start as int);
    &&& p.x@ == week_label((c.week + 1) as nat, md.0 as nat, md.1 as nat)
    &&& p.y@ == decimal_text(c.band as nat)
    &&& p.value == c.count
}

/// The label of a week from its number counted from 1 and the month and
/// day it starts on.
pub fn week_label_text(week_number: u32, month: u32, day: u32) -> (r: String)
    requires
        week_number < 100,
        month < 100,
        day < 100,
    ensures
        r@ == week_label(week_number as nat, month as nat, day as nat),
{
    proof {
        reveal_strlit("W");
        reveal_strlit("-");
        reveal_strlit("/");
    }
    let mut s = String::from_str("W");
    append_two_digits(&mut s, week_number);
    s.append("-");
    append_two_digits(&mut s, month);
    s.append("/");
    append_two_digits(&mut s, day);
    assert(s@ =~= week_label(week_number as nat, month as nat, day as nat));
    s
}

/// Labels each cell of a heatmap, in order: the week label from the
/// calendar date of the week's first day, the band's lower bound in
/// decimal, and the count. Gives `None` exactly when some week's first
/// day lies outside the calendar or some count does not fit an `i32`.
pub fn heatmap_points(cells: &Vec<HeatCell>) -> (r: Option<Vec<WatermarkDataPoint>>)
    requires
        cells_in_range(cells@),
    ensures
        r matches Some(points) ==> points.len() == cells.len() && forall|i: int|
            0 <= i < cells.len() ==> labels(#[trigger] cells@[i], points@[i]),
        r is None <==> exists|i: int|
            0 <= i < cells.len() && !label_fits(#[trigger] cells@[i]),
{
    let mut points: Vec<WatermarkDataPoint> = Vec::new();
    let mut i: usize = 0;
    while i < cells.len()
        invariant
            i <= cells.len(),
            cells_in_range(cells@),
            points.len() == i,
            forall|k: int| 0 <= k < i ==> labels(#[trigger] cells@[k], points@[k]),
            forall|k: int| 0 <= k < i ==> label_fits(#[trigger] cells@[k]),
        decreases cells.len() - i,
    {
        let c = cells[i];
        if c.count > i32::MAX as u64 {
            return None;
        }
        if c.week_start < i32::MIN as i64 || c.week_start > i32::MAX as i64 {
            return None;
        }
        let md = calendar_month_day(c.week_start as i32);
        match md {
            None => {
                return None;
            },
            Some((month, day)) => {
                let x = week_label_text(c.week + 1, month, day);
                let mut y = String::new();
                append_decimal(&mut y, c.band as usize);
                assert(y@ =~= decimal_text(c.band as nat));
                points.push(WatermarkDataPoint { x, y, value: c.count as i32 });
            },
        }
        i = i + 1;
    }
    Some(points)
}

} // verus!
