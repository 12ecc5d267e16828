use stock_tui::chart::{
    build_chart, chart_points, point_value, value_range, ChartPoint, ValueMode, ValueRange,
    FLAT_PADDING, PADDING_DIVISOR,
};
use stock_tui::quote::TimedPrice;
use stock_tui::session::SessionWindow;

fn series() -> Vec<TimedPrice> {
    vec![
        TimedPrice { minute: Some(239), price: 990_000 },
        TimedPrice { minute: Some(240), price: 1_000_000 },
        TimedPrice { minute: Some(569), price: 1_010_000 },
        TimedPrice { minute: None, price: 1_500_000 },
        TimedPrice { minute: Some(570), price: 1_020_000 },
        TimedPrice { minute: Some(960), price: 980_000 },
        TimedPrice { minute: Some(961), price: 970_000 },
    ]
}

#[test]
fn point_value_by_mode() {
    assert_eq!(point_value(ValueMode::Percent, 1_020_000, 1_000_000), 20_000);
    assert_eq!(point_value(ValueMode::Price, 1_020_000, 1_000_000), 1_020_000);
    assert_eq!(point_value(ValueMode::Percent, 1_020_000, 0), 0);
}

#[test]
fn regular_window_keeps_regular_hours_in_order() {
    let chart = chart_points(&series(), SessionWindow::Regular, ValueMode::Percent, 1_000_000);
    assert_eq!(
        chart,
        vec![
            ChartPoint { minute: 570, value: 20_000 },
            ChartPoint { minute: 960, value: -20_000 },
        ]
    );
}

#[test]
fn extended_window_adds_the_pre_market() {
    let chart = chart_points(&series(), SessionWindow::Extended, ValueMode::Price, 1_000_000);
    assert_eq!(
        chart,
        vec![
            ChartPoint { minute: 240, value: 1_000_000 },
            ChartPoint { minute: 569, value: 1_010_000 },
            ChartPoint { minute: 570, value: 1_020_000 },
            ChartPoint { minute: 960, value: 980_000 },
        ]
    );
}

#[test]
fn chart_of_empty_series_is_empty() {
    let chart = chart_points(&Vec::new(), SessionWindow::Extended, ValueMode::Percent, 1);
    assert!(chart.is_empty());
}

#[test]
fn range_spans_baseline_and_points_with_padding() {
    let points = vec![
        ChartPoint { minute: 570, value: -100 },
        ChartPoint { minute: 571, value: 300 },
    ];
    assert_eq!(
        value_range(&points, 0),
        ValueRange { low: -120, middle: 100, high: 320 }
    );
}

#[test]
fn range_includes_the_baseline() {
    let points = vec![
        ChartPoint { minute: 570, value: 200 },
        ChartPoint { minute: 571, value: 400 },
    ];
    // The baseline 0 lies below every point: the span is 0..400.
    assert_eq!(
        value_range(&points, 0),
        ValueRange { low: -20, middle: 200, high: 420 }
    );
    let points = vec![ChartPoint { minute: 570, value: -400 }];
    assert_eq!(
        value_range(&points, 0),
        ValueRange { low: -420, middle: -200, high: 20 }
    );
}

#[test]
fn flat_range_gets_the_fixed_padding() {
    assert_eq!(FLAT_PADDING, 500);
    assert_eq!(PADDING_DIVISOR, 20);
    assert_eq!(
        value_range(&Vec::new(), 0),
        ValueRange { low: -500, middle: 0, high: 500 }
    );
    let points = vec![ChartPoint { minute: 570, value: 7 }, ChartPoint { minute: 571, value: 7 }];
    assert_eq!(
        value_range(&points, 7),
        ValueRange { low: -493, middle: 7, high: 507 }
    );
}

#[test]
fn narrow_range_is_padded_by_one_unit() {
    let points = vec![ChartPoint { minute: 570, value: 1 }];
    assert_eq!(value_range(&points, 0), ValueRange { low: -1, middle: 0, high: 2 });
    let points = vec![ChartPoint { minute: 570, value: 19 }];
    assert_eq!(value_range(&points, 0), ValueRange { low: -1, middle: 9, high: 20 });
    let points = vec![ChartPoint { minute: 570, value: 20 }];
    assert_eq!(value_range(&points, 0), ValueRange { low: -1, middle: 10, high: 21 });
}

#[test]
fn padding_rounds_up_to_a_whole_unit() {
    let points = vec![ChartPoint { minute: 570, value: 21 }];
    assert_eq!(value_range(&points, 0), ValueRange { low: -2, middle: 10, high: 23 });
    let points = vec![ChartPoint { minute: 570, value: 401 }];
    assert_eq!(value_range(&points, 0), ValueRange { low: -21, middle: 200, high: 422 });
}

#[test]
fn middle_of_an_odd_range_rounds_down() {
    let points = vec![ChartPoint { minute: 570, value: -7 }];
    assert_eq!(value_range(&points, 0), ValueRange { low: -8, middle: -4, high: 1 });
}

#[test]
fn every_value_lies_strictly_inside_the_range() {
    for span in [1i128, 2, 19, 20, 21, 39, 40, 41, 1_000_003] {
        for baseline in [-span, 0, span] {
            let points = vec![
                ChartPoint { minute: 570, value: baseline + span },
                ChartPoint { minute: 571, value: baseline },
                ChartPoint { minute: 572, value: baseline - span / 2 },
            ];
            let range = value_range(&points, baseline);
            assert!(range.low < baseline && baseline < range.high);
            assert!(range.low < range.middle && range.middle < range.high);
            for point in &points {
                assert!(range.low < point.value && point.value < range.high);
            }
        }
    }
}

#[test]
fn price_view_of_a_quiet_instrument_keeps_its_margin() {
    let points = vec![
        TimedPrice { minute: Some(570), price: 1_000_005 },
        TimedPrice { minute: Some(600), price: 999_990 },
    ];
    let chart = build_chart(&points, SessionWindow::Regular, ValueMode::Price, 1_000_000);
    assert_eq!(
        chart.range,
        ValueRange { low: 999_989, middle: 999_997, high: 1_000_006 }
    );
}

#[test]
fn build_chart_in_percent_mode() {
    let chart = build_chart(&series(), SessionWindow::Regular, ValueMode::Percent, 1_000_000);
    assert_eq!(chart.window, SessionWindow::Regular);
    assert_eq!(chart.mode, ValueMode::Percent);
    assert_eq!(chart.points.len(), 2);
    assert_eq!(
        chart.range,
        ValueRange { low: -22_000, middle: 0, high: 22_000 }
    );
}

#[test]
fn build_chart_in_price_mode_uses_previous_close_as_baseline() {
    let points = vec![
        TimedPrice { minute: Some(570), price: 1_020_000 },
        TimedPrice { minute: Some(600), price: 1_040_000 },
    ];
    let chart = build_chart(&points, SessionWindow::Regular, ValueMode::Price, 1_000_000);
    assert_eq!(chart.mode, ValueMode::Price);
    assert_eq!(
        chart.range,
        ValueRange { low: 998_000, middle: 1_020_000, high: 1_042_000 }
    );
}
