use stock_tui::input::InputMode;
use stock_tui::settings::{
    cycle_next, cycle_previous, Activation, ChartKind, Interval, SettingsItem, Timeframe, Toggle,
    INTERVAL_COUNT, SETTINGS_ITEM_COUNT, TIMEFRAME_COUNT,
};
use stock_tui::text::same_text;

const PERIODS: [&str; 10] = ["1d", "1mo", "3mo", "6mo", "1y", "2y", "5y", "10y", "ytd", "max"];
const INTERVALS: [&str; 9] = ["1m", "2m", "5m", "15m", "1h", "1d", "1wk", "1mo", "3mo"];

#[test]
fn timeframes_in_menu_order() {
    assert_eq!(TIMEFRAME_COUNT, 10);
    for (index, name) in PERIODS.iter().enumerate() {
        let timeframe = Timeframe::from_index(index).unwrap();
        assert_eq!(timeframe.as_str(), *name);
        assert_eq!(timeframe.index(), index);
        assert_eq!(Timeframe::parse(name), Some(timeframe));
    }
    assert_eq!(Timeframe::from_index(10), None);
    assert_eq!(Timeframe::from_index(usize::MAX), None);
}

#[test]
fn intervals_in_menu_order() {
    assert_eq!(INTERVAL_COUNT, 9);
    for (index, name) in INTERVALS.iter().enumerate() {
        let interval = Interval::from_index(index).unwrap();
        assert_eq!(interval.as_str(), *name);
        assert_eq!(interval.index(), index);
        assert_eq!(Interval::parse(name), Some(interval));
    }
    assert_eq!(Interval::from_index(9), None);
}

#[test]
fn names_outside_the_lists_are_rejected() {
    for name in ["", "1", "d", "1D", "2d", "1wk", "1m", "1h", "1d ", " 1d", "20y", "MAX"] {
        assert_eq!(Timeframe::parse(name), None);
    }
    for name in ["", "1y", "2y", "ytd", "max", "1M", "1w", "10m", "3m", "1mo "] {
        assert_eq!(Interval::parse(name), None);
    }
}

#[test]
fn default_interval_by_name() {
    for name in PERIODS {
        let expected = match name {
            "2y" => "1wk",
            "5y" | "10y" => "1mo",
            "1d" => "1m",
            _ => "1d",
        };
        let timeframe = Timeframe::parse(name).unwrap();
        assert_eq!(timeframe.default_interval().as_str(), expected);
    }
}

#[test]
fn chart_kinds() {
    assert_eq!(ChartKind::Line.as_str(), "line");
    assert_eq!(ChartKind::Candlestick.as_str(), "candle");
    assert_eq!(ChartKind::Line.toggle(), ChartKind::Candlestick);
    assert_eq!(ChartKind::Candlestick.toggle(), ChartKind::Line);
}

#[test]
fn root_menu_items_and_what_they_do() {
    assert_eq!(SETTINGS_ITEM_COUNT, 8);
    let expected = [
        (SettingsItem::Clock24h, Activation::Flip(Toggle::Clock24h)),
        (SettingsItem::PriceView, Activation::Flip(Toggle::PriceView)),
        (SettingsItem::Header, Activation::Flip(Toggle::Header)),
        (SettingsItem::Candlestick, Activation::Flip(Toggle::Candlestick)),
        (SettingsItem::Indicators, Activation::Enter(InputMode::SettingsIndicators)),
        (SettingsItem::Timeframe, Activation::Enter(InputMode::SettingsTimeframe)),
        (SettingsItem::Interval, Activation::Enter(InputMode::SettingsInterval)),
        (SettingsItem::SaveAndExit, Activation::SaveAndExit),
    ];
    for (index, (item, activation)) in expected.iter().enumerate() {
        assert_eq!(SettingsItem::from_index(index), Some(*item));
        assert_eq!(item.activate(), *activation);
    }
    assert_eq!(SettingsItem::from_index(8), None);
}

#[test]
fn cursors_wrap_at_both_ends() {
    assert_eq!(cycle_next(0, 3), 1);
    assert_eq!(cycle_next(1, 3), 2);
    assert_eq!(cycle_next(2, 3), 0);
    assert_eq!(cycle_previous(0, 3), 2);
    assert_eq!(cycle_previous(2, 3), 1);
    assert_eq!(cycle_previous(1, 3), 0);
}

#[test]
fn cursors_of_short_and_empty_lists() {
    assert_eq!(cycle_next(0, 1), 0);
    assert_eq!(cycle_previous(0, 1), 0);
    assert_eq!(cycle_next(0, 0), 0);
    assert_eq!(cycle_previous(0, 0), 0);
    assert_eq!(cycle_next(5, 0), 0);
    assert_eq!(cycle_previous(5, 0), 0);
}

#[test]
fn cursors_outside_the_list_come_back_into_it() {
    assert_eq!(cycle_next(7, 3), 0);
    assert_eq!(cycle_previous(7, 3), 2);
    assert_eq!(cycle_next(usize::MAX, 3), 0);
    assert_eq!(cycle_next(usize::MAX, usize::MAX), 0);
    assert_eq!(cycle_next(usize::MAX - 1, usize::MAX), 0);
    assert_eq!(cycle_previous(usize::MAX, usize::MAX), usize::MAX - 1);
}

#[test]
fn same_text_compares_characters() {
    assert!(same_text("", ""));
    assert!(same_text("1d", "1d"));
    assert!(!same_text("1d", "1D"));
    assert!(!same_text("1d", "1d "));
    assert!(!same_text("ab", "ba"));
}
