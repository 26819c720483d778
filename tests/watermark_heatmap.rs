use chrono::{Datelike, NaiveDate};
use trade_metrics::watermark::{
    compute_watermark_heatmap, heatmap_points, watermark_band, week_index, week_label_text,
    HeatCell, WatermarkTrade, FIRST_CALENDAR_DAY, LAST_CALENDAR_DAY, WatermarkValue, MAX_WATERMARK, MIN_WATERMARK,
};

fn day(y: i32, m: u32, d: u32) -> i32 {
    NaiveDate::from_ymd_opt(y, m, d).unwrap().num_days_from_ce()
}

fn wm(mantissa: i128, scale: u32) -> WatermarkValue {
    WatermarkValue { mantissa, scale }
}

#[test]
fn fractional_watermark_is_scaled_to_percent() {
    assert_eq!(watermark_band(&wm(25, 2)), Some(25));
    assert_eq!(watermark_band(&wm(25, 0)), Some(25));
    assert_eq!(watermark_band(&wm(2500, 2)), Some(25));
}

#[test]
fn band_edges_are_half_open() {
    assert_eq!(watermark_band(&wm(20, 0)), Some(20));
    assert_eq!(watermark_band(&wm(3999, 2)), Some(39));
    assert_eq!(watermark_band(&wm(40, 0)), None);
    assert_eq!(watermark_band(&wm(1999, 2)), None);
    assert_eq!(watermark_band(&wm(29, 2)), Some(29));
}

#[test]
fn values_outside_zero_one_pass_unchanged() {
    assert_eq!(watermark_band(&wm(1, 0)), None);
    assert_eq!(watermark_band(&wm(0, 0)), None);
    assert_eq!(watermark_band(&wm(-25, 2)), None);
    assert_eq!(watermark_band(&wm(5, 1)), None);
}

#[test]
fn weeks_are_clamped_to_the_year() {
    let to = day(2024, 12, 31);
    assert_eq!(week_index(day(2024, 1, 1), to), 0);
    assert_eq!(week_index(day(2023, 6, 1), to), 0);
    assert_eq!(week_index(day(2024, 1, 8), to), 1);
    assert_eq!(week_index(day(2024, 12, 31), to), 51);
    assert_eq!(week_index(day(2025, 3, 1), to), 51);
}

#[test]
fn heatmap_counts_trades_per_week_and_band() {
    let to = day(2024, 12, 31);
    let trades = vec![
        WatermarkTrade { exit_day: day(2024, 1, 2), watermark: wm(25, 2) },
        WatermarkTrade { exit_day: day(2024, 1, 3), watermark: wm(255, 1) },
        WatermarkTrade { exit_day: day(2024, 1, 10), watermark: wm(30, 0) },
        WatermarkTrade { exit_day: day(2024, 1, 10), watermark: wm(45, 0) },
    ];
    let h = compute_watermark_heatmap(&trades, to);
    assert_eq!(h.min_watermark, MIN_WATERMARK);
    assert_eq!(h.max_watermark, MAX_WATERMARK);
    let start = (day(2024, 1, 1)) as i64;
    assert_eq!(
        h.cells,
        vec![
            HeatCell { week: 0, week_start: start, band: 25, count: 2 },
            HeatCell { week: 1, week_start: start + 7, band: 30, count: 1 },
        ]
    );
    let points = heatmap_points(&h.cells).unwrap();
    assert_eq!(points.len(), 2);
    assert_eq!(points[0].x, "W01-01/01");
    assert_eq!(points[0].y, "25");
    assert_eq!(points[0].value, 2);
    assert_eq!(points[1].x, "W02-01/08");
    assert_eq!(points[1].y, "30");
    assert_eq!(points[1].value, 1);
}

#[test]
fn empty_heatmap_has_no_cells() {
    let h = compute_watermark_heatmap(&Vec::new(), day(2024, 5, 5));
    assert!(h.cells.is_empty());
}

#[test]
fn week_label_pads_each_part() {
    assert_eq!(week_label_text(5, 3, 9), "W05-03/09");
    assert_eq!(week_label_text(52, 12, 24), "W52-12/24");
}

#[test]
fn points_label_dates_from_the_calendar() {
    let cells = vec![HeatCell { week: 9, week_start: day(2024, 2, 26) as i64, band: 38, count: 4 }];
    let points = heatmap_points(&cells).unwrap();
    assert_eq!(points[0].x, "W10-02/26");
    assert_eq!(points[0].y, "38");
    assert_eq!(points[0].value, 4);
}

#[test]
fn fraction_and_percent_give_the_same_point() {
    let to = day(2024, 12, 31);
    for w in [wm(25, 2), wm(25, 0)] {
        let trades = vec![WatermarkTrade { exit_day: day(2024, 6, 3), watermark: w }];
        let h = compute_watermark_heatmap(&trades, to);
        let points = heatmap_points(&h.cells).unwrap();
        assert_eq!(points.len(), 1);
        assert_eq!(points[0].x, "W23-06/03");
        assert_eq!(points[0].y, "25");
        assert_eq!(points[0].value, 1);
    }
}

#[test]
fn points_need_calendar_dates_and_small_counts() {
    let at = |week_start: i64, count: u64| HeatCell { week: 0, week_start, band: 20, count };
    assert!(heatmap_points(&vec![at(FIRST_CALENDAR_DAY as i64, 1)]).is_some());
    assert!(heatmap_points(&vec![at(LAST_CALENDAR_DAY as i64, 1)]).is_some());
    assert!(heatmap_points(&vec![at(FIRST_CALENDAR_DAY as i64 - 1, 1)]).is_none());
    assert!(heatmap_points(&vec![at(LAST_CALENDAR_DAY as i64 + 1, 1)]).is_none());
    assert!(heatmap_points(&vec![at(0, i32::MAX as u64 + 1)]).is_none());
    assert!(heatmap_points(&vec![at(0, i32::MAX as u64)]).is_some());
}
