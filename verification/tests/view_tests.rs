use stock_tui::app::App;
use stock_tui::chart::{ChartPoint, ValueMode};
use stock_tui::error::FetchError;
use stock_tui::header::{Trend, VolumeLabel, VolumeUnit};
use stock_tui::input::{InputMode, Key};
use stock_tui::payload::{
    ChartContent, ChartIndicators, ChartMeta, ChartQuote, ChartResult, YFResponse,
};
use stock_tui::quote::StockData;
use stock_tui::scheduler::Viewport;
use stock_tui::session::SessionWindow;
use stock_tui::view::{percent_magnitude, quote_chart, quote_header};

const SIZE: Viewport = Viewport { width: 80, height: 24 };

// 2024-03-15 in New York: 09:00, 09:30, 10:00.
const T_0900: i64 = 1710507600;
const T_0930: i64 = 1710509400;
const T_1000: i64 = 1710511200;

fn response(price: i64, closes: Vec<Option<i64>>) -> YFResponse {
    YFResponse {
        chart: ChartContent {
            result: vec![ChartResult {
                meta: ChartMeta {
                    currency: "USD".to_string(),
                    symbol: "AAPL".to_string(),
                    regular_market_price: price,
                    chart_previous_close: Some(1_000_000),
                    regular_market_day_high: Some(1_030_000),
                    regular_market_day_low: Some(980_000),
                    regular_market_volume: Some(2_345_678),
                    regular_market_open: Some(0),
                },
                timestamp: Some(vec![T_0900, T_0930, T_1000]),
                indicators: ChartIndicators { quote: vec![ChartQuote { close: Some(closes) }] },
            }],
        },
    }
}

fn app_with_quote() -> App {
    let mut app = App::new("AAPL".to_string());
    let request = app.begin_fetch(0, SIZE).unwrap();
    let closes = vec![Some(990_000), Some(1_010_000), Some(1_020_000)];
    app.complete_fetch(&request, Ok(response(1_020_000, closes)), 1_000);
    app
}

#[test]
fn default_quote() {
    let data = StockData::default();
    assert_eq!(data.symbol, "");
    assert_eq!(data.currency, "USD");
    assert_eq!(data.price, 0);
    assert_eq!(data.previous_close, 0);
    assert_eq!(data.change_percent, 0);
    assert_eq!(data.open, 0);
    assert_eq!(data.high, 0);
    assert_eq!(data.low, 0);
    assert_eq!(data.volume, 0);
    assert!(data.timestamps.is_empty());
    assert!(data.prices.is_empty());
    assert_eq!(data.clone(), data);
}

#[test]
fn percent_magnitude_drops_the_sign() {
    assert_eq!(percent_magnitude(0), 0);
    assert_eq!(percent_magnitude(12_500), 12_500);
    assert_eq!(percent_magnitude(-12_500), 12_500);
    assert_eq!(percent_magnitude(i128::MAX), i128::MAX as u128);
    assert_eq!(percent_magnitude(i128::MIN), (i128::MAX as u128) + 1);
}

#[test]
fn view_before_the_first_fetch_shows_nothing() {
    let app = App::new("AAPL".to_string());
    let view = app.view_model(0);
    assert_eq!(view.mode, InputMode::Browsing);
    assert!(view.header.is_none());
    assert!(view.chart.is_none());
    assert!(view.error.is_none());
    // The first refresh is due at once.
    assert_eq!(view.countdown_secs, 0);
    assert!(!view.help_visible);
    assert_eq!(view.options, app.options());
}

#[test]
fn view_shows_header_and_chart_of_the_quote() {
    let app = app_with_quote();
    let view = app.view_model(31_000);
    let header = view.header.unwrap();
    assert_eq!(header.trend, Trend::Up);
    assert_eq!(header.change, 20_000);
    assert_eq!(header.percent_magnitude, 20_000);
    assert_eq!(
        header.volume,
        VolumeLabel { unit: VolumeUnit::Millions, whole: 2, hundredths: 35 }
    );
    assert_eq!(view.countdown_secs, 30);
    let chart = view.chart.unwrap();
    assert_eq!(chart.window, SessionWindow::Regular);
    assert_eq!(chart.mode, ValueMode::Percent);
    assert_eq!(
        chart.points,
        vec![
            ChartPoint { minute: 570, value: 10_000 },
            ChartPoint { minute: 600, value: 20_000 },
        ]
    );
    assert_eq!(chart.range.low, -1_000);
    assert_eq!(chart.range.high, 21_000);
    assert_eq!(chart.range.middle, 10_000);
    // The open was inferred from the first point at or after 09:30.
    assert_eq!(app.data().unwrap().open, 1_010_000);
}

#[test]
fn view_follows_the_display_switches() {
    let mut app = app_with_quote();
    app.handle_key(Key::Ctrl('p'));
    let view = app.view_model(1_000);
    let chart = view.chart.unwrap();
    assert_eq!(chart.window, SessionWindow::Extended);
    assert_eq!(chart.points.len(), 3);
    assert_eq!(chart.points[0], ChartPoint { minute: 540, value: -10_000 });
    // Switch to prices in the settings.
    for key in [Key::Char('s'), Key::Down, Key::Enter, Key::Esc] {
        app.handle_key(key);
    }
    let view = app.view_model(1_000);
    assert!(view.options.price_view);
    let chart = view.chart.unwrap();
    assert_eq!(chart.mode, ValueMode::Price);
    assert_eq!(chart.points[0], ChartPoint { minute: 540, value: 990_000 });
    assert_eq!(chart.range.low, 990_000 - 1_500);
    assert_eq!(chart.range.high, 1_020_000 + 1_500);
}

#[test]
fn view_of_a_falling_quote() {
    let mut app = App::new("AAPL".to_string());
    let request = app.begin_fetch(0, SIZE).unwrap();
    app.complete_fetch(&request, Ok(response(950_000, vec![None, None, Some(950_000)])), 0);
    let view = app.view_model(0);
    let header = view.header.unwrap();
    assert_eq!(header.trend, Trend::Down);
    assert_eq!(header.change, -50_000);
    assert_eq!(header.percent_magnitude, 50_000);
    let chart = view.chart.unwrap();
    assert_eq!(chart.points, vec![ChartPoint { minute: 600, value: -50_000 }]);
}

#[test]
fn view_without_prices_has_a_header_and_no_chart() {
    let mut app = App::new("AAPL".to_string());
    let request = app.begin_fetch(0, SIZE).unwrap();
    app.complete_fetch(&request, Ok(response(1_000_000, vec![None, None, None])), 0);
    let view = app.view_model(0);
    assert!(view.header.is_some());
    assert!(view.chart.is_none());
}

#[test]
fn view_keeps_the_quote_beside_an_error() {
    let mut app = app_with_quote();
    let request = app.begin_fetch(61_000, SIZE).unwrap();
    app.complete_fetch(&request, Err(FetchError::Timeout), 62_000);
    let view = app.view_model(62_000);
    assert_eq!(view.error, Some(FetchError::Timeout));
    assert!(view.header.is_some());
    assert!(view.chart.is_some());
    assert_eq!(view.countdown_secs, 0);
}

#[test]
fn view_shows_the_mode() {
    let mut app = app_with_quote();
    app.handle_key(Key::Char('/'));
    assert_eq!(app.view_model(0).mode, InputMode::SearchingTicker);
    app.handle_key(Key::Esc);
    app.handle_key(Key::Char('s'));
    assert_eq!(app.view_model(0).mode, InputMode::SettingsRoot);
}

#[test]
fn header_and_chart_of_a_quote() {
    let data = StockData {
        symbol: "X".to_string(),
        price: 500_000,
        previous_close: 400_000,
        change_percent: 250_000,
        open: 0,
        high: 0,
        low: 0,
        volume: 12,
        timestamps: vec![T_0930],
        prices: vec![500_000],
        currency: "USD".to_string(),
    };
    let header = quote_header(&data);
    assert_eq!(header.trend, Trend::Up);
    assert_eq!(header.change, 100_000);
    assert_eq!(header.percent_magnitude, 250_000);
    assert_eq!(header.volume, VolumeLabel { unit: VolumeUnit::Units, whole: 12, hundredths: 0 });
    let chart = quote_chart(&data, false, false).unwrap();
    assert_eq!(chart.points, vec![ChartPoint { minute: 570, value: 250_000 }]);
    let chart = quote_chart(&data, true, true).unwrap();
    assert_eq!(chart.window, SessionWindow::Extended);
    assert_eq!(chart.points, vec![ChartPoint { minute: 570, value: 500_000 }]);
    assert!(quote_chart(&StockData::default(), true, true).is_none());
}

#[test]
fn help_is_laid_over_the_chart_only() {
    // Without a chart the help stays hidden, switched on or not.
    let mut app = App::new("AAPL".to_string());
    app.handle_key(Key::Ctrl('h'));
    assert!(app.options().show_help);
    assert!(!app.view_model(0).help_visible);
    // With a chart it shows while it is switched on.
    let mut app = app_with_quote();
    assert!(!app.view_model(0).help_visible);
    app.handle_key(Key::Ctrl('h'));
    assert!(app.view_model(0).help_visible);
    // A menu or the search takes its place.
    app.handle_key(Key::Char('s'));
    assert!(!app.view_model(0).help_visible);
    app.handle_key(Key::Esc);
    assert!(app.view_model(0).help_visible);
    app.handle_key(Key::Char('/'));
    assert!(!app.view_model(0).help_visible);
    app.handle_key(Key::Esc);
    app.handle_key(Key::Ctrl('h'));
    assert!(!app.view_model(0).help_visible);
}

#[test]
fn countdown_reads_zero_while_a_refresh_is_forced() {
    let mut app = app_with_quote();
    assert_eq!(app.view_model(1_000).countdown_secs, 60);
    for key in [Key::Char('s'), Key::Esc] {
        app.handle_key(key);
    }
    assert_eq!(app.view_model(1_000).countdown_secs, 0);
    let request = app.begin_fetch(2_000, SIZE).unwrap();
    app.complete_fetch(&request, Ok(response(1, vec![Some(1), None, None])), 3_000);
    assert_eq!(app.view_model(3_000).countdown_secs, 60);
}
