//! The options that the settings menus offer: timeframe, interval, chart
//! kind, indicators, and the items of the root menu.

use crate::input::InputMode;
use crate::text::same_text;
use vstd::prelude::*;

verus! {

/// The span of history that a fetch asks for.
#[derive(Debug, Clone, Copy, PartialEq, Eq, Structural)]
pub enum Timeframe {
    OneDay,
    OneMonth,
    ThreeMonths,
    SixMonths,
    OneYear,
    TwoYears,
    FiveYears,
    TenYears,
    YearToDate,
    Max,
}

/// The distance between two points of the series that a fetch asks for.
#[derive(Debug, Clone, Copy, PartialEq, Eq, Structural)]
pub enum Interval {
    OneMinute,
    TwoMinutes,
    FiveMinutes,
    FifteenMinutes,
    OneHour,
    OneDay,
    OneWeek,
    OneMonth,
    ThreeMonths,
}

/// How the chart draws prices.
#[derive(Debug, Clone, Copy, PartialEq, Eq, Structural)]
pub enum ChartKind {
    Line,
    Candlestick,
}

/// Number of timeframes on offer.
pub const TIMEFRAME_COUNT: usize = 10;

/// Number of intervals on offer.
pub const INTERVAL_COUNT: usize = 9;

/// Number of items in the root menu of the settings.
pub const SETTINGS_ITEM_COUNT: usize = 8;

/// The timeframe at a position of its menu.
pub open spec fn timeframe_at(index: int) -> Option<Timeframe> {
    if index == 0 {
        Some(Timeframe::OneDay)
    } else if index == 1 {
        Some(Timeframe::OneMonth)
    } else if index == 2 {
        Some(Timeframe::ThreeMonths)
    } else if index == 3 {
        Some(Timeframe::SixMonths)
    } else if index == 4 {
        Some(Timeframe::OneYear)
    } else if index == 5 {
        Some(Timeframe::TwoYears)
    } else if index == 6 {
        Some(Timeframe::FiveYears)
    } else if index == 7 {
        Some(Timeframe::TenYears)
    } else if index == 8 {
        Some(Timeframe::YearToDate)
    } else if index == 9 {
        Some(Timeframe::Max)
    } else {
        None
    }
}

/// The interval at a position of its menu.
pub open spec fn interval_at(index: int) -> Option<Interval> {
    if index == 0 {
        Some(Interval::OneMinute)
    } else if index == 1 {
        Some(Interval::TwoMinutes)
    } else if index == 2 {
        Some(Interval::FiveMinutes)
    } else if index == 3 {
        Some(Interval::FifteenMinutes)
    } else if index == 4 {
        Some(Interval::OneHour)
    } else if index == 5 {
        Some(Interval::OneDay)
    } else if index == 6 {
        Some(Interval::OneWeek)
    } else if index == 7 {
        Some(Interval::OneMonth)
    } else if index == 8 {
        Some(Interval::ThreeMonths)
    } else {
        None
    }
}

/// The timeframe that the data provider knows under a name, if the name is
/// that of a timeframe.
pub open spec fn timeframe_named(name: Seq<char>) -> Option<Timeframe> {
    if name == "1d"@ {
        Some(Timeframe::OneDay)
    } else if name == "1mo"@ {
        Some(Timeframe::OneMonth)
    } else if name == "3mo"@ {
        Some(Timeframe::ThreeMonths)
    } else if name == "6mo"@ {
        Some(Timeframe::SixMonths)
    } else if name == "1y"@ {
        Some(Timeframe::OneYear)
    } else if name == "2y"@ {
        Some(Timeframe::TwoYears)
    } else if name == "5y"@ {
        Some(Timeframe::FiveYears)
    } else if name == "10y"@ {
        Some(Timeframe::TenYears)
    } else if name == "ytd"@ {
        Some(Timeframe::YearToDate)
    } else if name == "max"@ {
        Some(Timeframe::Max)
    } else {
        None
    }
}

/// The interval that the data provider knows under a name, if the name is
/// that of an interval.
pub open spec fn interval_named(name: Seq<char>) -> Option<Interval> {
    if name == "1m"@ {
        Some(Interval::OneMinute)
    } else if name == "2m"@ {
        Some(Interval::TwoMinutes)
    } else if name == "5m"@ {
        Some(Interval::FiveMinutes)
    } else if name == "15m"@ {
        Some(Interval::FifteenMinutes)
    } else if name == "1h"@ {
        Some(Interval::OneHour)
    } else if name == "1d"@ {
        Some(Interval::OneDay)
    } else if name == "1wk"@ {
        Some(Interval::OneWeek)
    } else if name == "1mo"@ {
        Some(Interval::OneMonth)
    } else if name == "3mo"@ {
        Some(Interval::ThreeMonths)
    } else {
        None
    }
}

/// The interval that goes with a timeframe when none is chosen by hand: one
/// minute for one day, one week for two years, one month for five and ten
/// years, one day for every other timeframe.
pub open spec fn default_interval_of(timeframe: Timeframe) -> Interval {
    match timeframe {
        Timeframe::OneDay => Interval::OneMinute,
        Timeframe::TwoYears => Interval::OneWeek,
        Timeframe::FiveYears => Interval::OneMonth,
        Timeframe::TenYears => Interval::OneMonth,
        _ => Interval::OneDay,
    }
}

/// Every timeframe is read back from its own name, and so is every interval:
/// no two of them share a name.
pub proof fn lemma_names_read_back(timeframe: Timeframe, interval: Interval)
    ensures
        timeframe_named(timeframe.label()) == Some(timeframe),
        interval_named(interval.label()) == Some(interval),
{
    reveal_strlit("1d");
    reveal_strlit("1mo");
    reveal_strlit("3mo");
    reveal_strlit("6mo");
    reveal_strlit("1y");
    reveal_strlit("2y");
    reveal_strlit("5y");
    reveal_strlit("10y");
    reveal_strlit("ytd");
    reveal_strlit("max");
    reveal_strlit("1m");
    reveal_strlit("2m");
    reveal_strlit("5m");
    reveal_strlit("15m");
    reveal_strlit("1h");
    reveal_strlit("1wk");
    // No two names are the same: they differ in length or in a character.
    assert("1d"@.len() == 2 && "1d"@[0] == '1' && "1d"@[1] == 'd');
    assert("1y"@.len() == 2 && "1y"@[0] == '1' && "1y"@[1] == 'y');
    assert("2y"@.len() == 2 && "2y"@[0] == '2' && "2y"@[1] == 'y');
    assert("5y"@.len() == 2 && "5y"@[0] == '5' && "5y"@[1] == 'y');
    assert("1m"@.len() == 2 && "1m"@[0] == '1' && "1m"@[1] == 'm');
    assert("2m"@.len() == 2 && "2m"@[0] == '2' && "2m"@[1] == 'm');
    assert("5m"@.len() == 2 && "5m"@[0] == '5' && "5m"@[1] == 'm');
    assert("1h"@.len() == 2 && "1h"@[0] == '1' && "1h"@[1] == 'h');
    assert("10y"@.len() == 3 && "10y"@[0] == '1' && "10y"@[1] == '0');
    assert("15m"@.len() == 3 && "15m"@[0] == '1' && "15m"@[1] == '5');
    assert("1mo"@.len() == 3 && "1mo"@[0] == '1' && "1mo"@[1] == 'm');
    assert("1wk"@.len() == 3 && "1wk"@[0] == '1' && "1wk"@[1] == 'w');
    assert("3mo"@.len() == 3 && "3mo"@[0] == '3');
    assert("6mo"@.len() == 3 && "6mo"@[0] == '6');
    assert("ytd"@.len() == 3 && "ytd"@[0] == 'y');
    assert("max"@.len() == 3 && "max"@[0] == 'm');
}

/// The interval that goes with a timeframe, by the names of the data
/// provider: `1wk` for `2y`, `1mo` for `5y` and for `10y`, `1m` for `1d`, and
/// `1d` for every other timeframe.
pub proof fn lemma_default_interval_by_name(timeframe: Timeframe)
    ensures
        timeframe.label() == "2y"@ ==> default_interval_of(timeframe).label() == "1wk"@,
        timeframe.label() == "5y"@ || timeframe.label() == "10y"@ ==> default_interval_of(
            timeframe,
        ).label() == "1mo"@,
        timeframe.label() == "1d"@ ==> default_interval_of(timeframe).label() == "1m"@,
        timeframe.label() != "2y"@ && timeframe.label() != "5y"@ && timeframe.label() != "10y"@
            && timeframe.label() != "1d"@ ==> default_interval_of(timeframe).label() == "1d"@,
{
    // A timeframe is known by its name, so a timeframe with the name of
    // another is that other.
    lemma_names_read_back(timeframe, Interval::OneDay);
    lemma_names_read_back(Timeframe::TwoYears, Interval::OneDay);
    lemma_names_read_back(Timeframe::FiveYears, Interval::OneDay);
    lemma_names_read_back(Timeframe::TenYears, Interval::OneDay);
    lemma_names_read_back(Timeframe::OneDay, Interval::OneDay);
}

impl Timeframe {
    /// The name under which the data provider knows the timeframe.
    pub open spec fn label(self) -> Seq<char> {
        match self {
            Timeframe::OneDay => "1d"@,
            Timeframe::OneMonth => "1mo"@,
            Timeframe::ThreeMonths => "3mo"@,
            Timeframe::SixMonths => "6mo"@,
            Timeframe::OneYear => "1y"@,
            Timeframe::TwoYears => "2y"@,
            Timeframe::FiveYears => "5y"@,
            Timeframe::TenYears => "10y"@,
            Timeframe::YearToDate => "ytd"@,
            Timeframe::Max => "max"@,
        }
    }

    /// The timeframe at a position of its menu.
    pub fn from_index(index: usize) -> (timeframe: Option<Timeframe>)
        ensures
            timeframe == timeframe_at(index as int),
            timeframe is Some <==> index < TIMEFRAME_COUNT,
    {
        match index {
            0 => Some(Timeframe::OneDay),
            1 => Some(Timeframe::OneMonth),
            2 => Some(Timeframe::ThreeMonths),
            3 => Some(Timeframe::SixMonths),
            4 => Some(Timeframe::OneYear),
            5 => Some(Timeframe::TwoYears),
            6 => Some(Timeframe::FiveYears),
            7 => Some(Timeframe::TenYears),
            8 => Some(Timeframe::YearToDate),
            9 => Some(Timeframe::Max),
            _ => None,
        }
    }

    /// The position of the timeframe in its menu.
    pub fn index(self) -> (index: usize)
        ensures
            index < TIMEFRAME_COUNT,
            timeframe_at(index as int) == Some(self),
    {
        match self {
            Timeframe::OneDay => 0,
            Timeframe::OneMonth => 1,
            Timeframe::ThreeMonths => 2,
            Timeframe::SixMonths => 3,
            Timeframe::OneYear => 4,
            Timeframe::TwoYears => 5,
            Timeframe::FiveYears => 6,
            Timeframe::TenYears => 7,
            Timeframe::YearToDate => 8,
            Timeframe::Max => 9,
        }
    }

    /// The name under which the data provider knows the timeframe.
    pub fn as_str(self) -> (name: &'static str)
        ensures
            name@ == self.label(),
    {
        match self {
            Timeframe::OneDay => "1d",
            Timeframe::OneMonth => "1mo",
            Timeframe::ThreeMonths => "3mo",
            Timeframe::SixMonths => "6mo",
            Timeframe::OneYear => "1y",
            Timeframe::TwoYears => "2y",
            Timeframe::FiveYears => "5y",
            Timeframe::TenYears => "10y",
            Timeframe::YearToDate => "ytd",
            Timeframe::Max => "max",
        }
    }

    /// Reads a timeframe from the name of the data provider. A text that is
    /// no such name is no timeframe.
    pub fn parse(name: &str) -> (timeframe: Option<Timeframe>)
        ensures
            timeframe == timeframe_named(name@),
    {
        if same_text(name, "1d") {
            Some(Timeframe::OneDay)
        } else if same_text(name, "1mo") {
            Some(Timeframe::OneMonth)
        } else if same_text(name, "3mo") {
            Some(Timeframe::ThreeMonths)
        } else if same_text(name, "6mo") {
            Some(Timeframe::SixMonths)
        } else if same_text(name, "1y") {
            Some(Timeframe::OneYear)
        } else if same_text(name, "2y") {
            Some(Timeframe::TwoYears)
        } else if same_text(name, "5y") {
            Some(Timeframe::FiveYears)
        } else if same_text(name, "10y") {
            Some(Timeframe::TenYears)
        } else if same_text(name, "ytd") {
            Some(Timeframe::YearToDate)
        } else if same_text(name, "max") {
            Some(Timeframe::Max)
        } else {
            None
        }
    }

    /// The interval that goes with the timeframe when none is chosen by hand.
    pub fn default_interval(self) -> (interval: Interval)
        ensures
            interval == default_interval_of(self),
    {
        match self {
            Timeframe::OneDay => Interval::OneMinute,
            Timeframe::TwoYears => Interval::OneWeek,
            Timeframe::FiveYears => Interval::OneMonth,
            Timeframe::TenYears => Interval::OneMonth,
            _ => Interval::OneDay,
        }
    }
}

impl Interval {
    /// The name under which the data provider knows the interval.
    pub open spec fn label(self) -> Seq<char> {
        match self {
            Interval::OneMinute => "1m"@,
            Interval::TwoMinutes => "2m"@,
            Interval::FiveMinutes => "5m"@,
            Interval::FifteenMinutes => "15m"@,
            Interval::OneHour => "1h"@,
            Interval::OneDay => "1d"@,
            Interval::OneWeek => "1wk"@,
            Interval::OneMonth => "1mo"@,
            Interval::ThreeMonths => "3mo"@,
        }
    }

    /// The interval at a position of its menu.
    pub fn from_index(index: usize) -> (interval: Option<Interval>)
        ensures
            interval == interval_at(index as int),
            interval is Some <==> index < INTERVAL_COUNT,
    {
        match index {
            0 => Some(Interval::OneMinute),
            1 => Some(Interval::TwoMinutes),
            2 => Some(Interval::FiveMinutes),
            3 => Some(Interval::FifteenMinutes),
            4 => Some(Interval::OneHour),
            5 => Some(Interval::OneDay),
            6 => Some(Interval::OneWeek),
            7 => Some(Interval::OneMonth),
            8 => Some(Interval::ThreeMonths),
            _ => None,
        }
    }

    /// The position of the interval in its menu.
    pub fn index(self) -> (index: usize)
        ensures
            index < INTERVAL_COUNT,
            interval_at(index as int) == Some(self),
    {
        match self {
            Interval::OneMinute => 0,
            Interval::TwoMinutes => 1,
            Interval::FiveMinutes => 2,
            Interval::FifteenMinutes => 3,
            Interval::OneHour => 4,
            Interval::OneDay => 5,
            Interval::OneWeek => 6,
            Interval::OneMonth => 7,
            Interval::ThreeMonths => 8,
        }
    }

    /// Reads an interval from the name of the data provider. A text that is
    /// no such name is no interval.
    pub fn parse(name: &str) -> (interval: Option<Interval>)
        ensures
            interval == interval_named(name@),
    {
        if same_text(name, "1m") {
            Some(Interval::OneMinute)
        } else if same_text(name, "2m") {
            Some(Interval::TwoMinutes)
        } else if same_text(name, "5m") {
            Some(Interval::FiveMinutes)
        } else if same_text(name, "15m") {
            Some(Interval::FifteenMinutes)
        } else if same_text(name, "1h") {
            Some(Interval::OneHour)
        } else if same_text(name, "1d") {
            Some(Interval::OneDay)
        } else if same_text(name, "1wk") {
            Some(Interval::OneWeek)
        } else if same_text(name, "1mo") {
            Some(Interval::OneMonth)
        } else if same_text(name, "3mo") {
            Some(Interval::ThreeMonths)
        } else {
            None
        }
    }

    /// The name under which the data provider knows the interval.
    pub fn as_str(self) -> (name: &'static str)
        ensures
            name@ == self.label(),
    {
        match self {
            Interval::OneMinute => "1m",
            Interval::TwoMinutes => "2m",
            Interval::FiveMinutes => "5m",
            Interval::FifteenMinutes => "15m",
            Interval::OneHour => "1h",
            Interval::OneDay => "1d",
            Interval::OneWeek => "1wk",
            Interval::OneMonth => "1mo",
            Interval::ThreeMonths => "3mo",
        }
    }
}

impl ChartKind {
    /// The name under which the data provider knows the chart kind.
    pub open spec fn label(self) -> Seq<char> {
        match self {
            ChartKind::Line => "line"@,
            ChartKind::Candlestick => "candle"@,
        }
    }

    /// The name under which the data provider knows the chart kind.
    pub fn as_str(self) -> (name: &'static str)
        ensures
            name@ == self.label(),
    {
        match self {
            ChartKind::Line => "line",
            ChartKind::Candlestick => "candle",
        }
    }

    /// The other chart kind.
    pub open spec fn toggled(self) -> ChartKind {
        match self {
            ChartKind::Line => ChartKind::Candlestick,
            ChartKind::Candlestick => ChartKind::Line,
        }
    }

    /// Switches between the two chart kinds.
    pub fn toggle(self) -> (kind: ChartKind)
        ensures
            kind == self.toggled(),
    {
        match self {
            ChartKind::Line => ChartKind::Candlestick,
            ChartKind::Candlestick => ChartKind::Line,
        }
    }
}

/// An indicator that can be drawn over the chart. Its computation is not
/// part of this library.
#[derive(Debug, PartialEq, Eq)]
pub struct IndicatorOption {
    pub name: String,
    /// Whether the indicator can only be drawn over absolute prices.
    pub requires_price: bool,
}

impl Clone for IndicatorOption {
    fn clone(&self) -> (copy: IndicatorOption)
        ensures
            copy == *self,
    {
        IndicatorOption { name: self.name.clone(), requires_price: self.requires_price }
    }
}

/// A display switch of the root menu.
#[derive(Debug, Clone, Copy, PartialEq, Eq, Structural)]
pub enum Toggle {
    /// Times in 24-hour notation.
    Clock24h,
    /// Prices in place of percent changes.
    PriceView,
    /// The header line.
    Header,
    /// Candlesticks in place of a line.
    Candlestick,
}

/// What activating an item of the root menu does.
#[derive(Debug, Clone, Copy, PartialEq, Eq, Structural)]
pub enum Activation {
    /// Flips a display switch and stays in the menu.
    Flip(Toggle),
    /// Opens a nested menu.
    Enter(InputMode),
    /// Leaves the settings and refreshes at once.
    SaveAndExit,
}

/// An item of the root menu of the settings.
#[derive(Debug, Clone, Copy, PartialEq, Eq, Structural)]
pub enum SettingsItem {
    Clock24h,
    PriceView,
    Header,
    Candlestick,
    Indicators,
    Timeframe,
    Interval,
    SaveAndExit,
}

/// The item at a position of the root menu.
pub open spec fn settings_item_at(index: int) -> Option<SettingsItem> {
    if index == 0 {
        Some(SettingsItem::Clock24h)
    } else if index == 1 {
        Some(SettingsItem::PriceView)
    } else if index == 2 {
        Some(SettingsItem::Header)
    } else if index == 3 {
        Some(SettingsItem::Candlestick)
    } else if index == 4 {
        Some(SettingsItem::Indicators)
    } else if index == 5 {
        Some(SettingsItem::Timeframe)
    } else if index == 6 {
        Some(SettingsItem::Interval)
    } else if index == 7 {
        Some(SettingsItem::SaveAndExit)
    } else {
        None
    }
}

impl SettingsItem {
    /// What activating the item does.
    pub open spec fn activation(self) -> Activation {
        match self {
            SettingsItem::Clock24h => Activation::Flip(Toggle::Clock24h),
            SettingsItem::PriceView => Activation::Flip(Toggle::PriceView),
            SettingsItem::Header => Activation::Flip(Toggle::Header),
            SettingsItem::Candlestick => Activation::Flip(Toggle::Candlestick),
            SettingsItem::Indicators => Activation::Enter(InputMode::SettingsIndicators),
            SettingsItem::Timeframe => Activation::Enter(InputMode::SettingsTimeframe),
            SettingsItem::Interval => Activation::Enter(InputMode::SettingsInterval),
            SettingsItem::SaveAndExit => Activation::SaveAndExit,
        }
    }

    /// The item at a position of the root menu.
    pub fn from_index(index: usize) -> (item: Option<SettingsItem>)
        ensures
            item == settings_item_at(index as int),
            item is Some <==> index < SETTINGS_ITEM_COUNT,
    {
        match index {
            0 => Some(SettingsItem::Clock24h),
            1 => Some(SettingsItem::PriceView),
            2 => Some(SettingsItem::Header),
            3 => Some(SettingsItem::Candlestick),
            4 => Some(SettingsItem::Indicators),
            5 => Some(SettingsItem::Timeframe),
            6 => Some(SettingsItem::Interval),
            7 => Some(SettingsItem::SaveAndExit),
            _ => None,
        }
    }

    /// What activating the item does.
    pub fn activate(self) -> (activation: Activation)
        ensures
            activation == self.activation(),
    {
        match self {
            SettingsItem::Clock24h => Activation::Flip(Toggle::Clock24h),
            SettingsItem::PriceView => Activation::Flip(Toggle::PriceView),
            SettingsItem::Header => Activation::Flip(Toggle::Header),
            SettingsItem::Candlestick => Activation::Flip(Toggle::Candlestick),
            SettingsItem::Indicators => Activation::Enter(InputMode::SettingsIndicators),
            SettingsItem::Timeframe => Activation::Enter(InputMode::SettingsTimeframe),
            SettingsItem::Interval => Activation::Enter(InputMode::SettingsInterval),
            SettingsItem::SaveAndExit => Activation::SaveAndExit,
        }
    }
}

/// The position after `cursor` in a list of `count` entries, wrapping from
/// the last entry to the first.
pub open spec fn next_in_cycle(cursor: nat, count: nat) -> nat {
    if cursor + 1 < count {
        cursor + 1
    } else {
        0
    }
}

/// The position before `cursor` in a list of `count` entries, wrapping from
/// the first entry to the last.
pub open spec fn previous_in_cycle(cursor: nat, count: nat) -> nat {
    if count == 0 {
        0
    } else if cursor == 0 || cursor >= count {
        (count - 1) as nat
    } else {
        (cursor - 1) as nat
    }
}

/// Inside a list, moving down and then up, or up and then down, comes back
/// to where the cursor was: the list is walked as a cycle, wrapping at both
/// ends.
pub proof fn lemma_cycle_round_trip(cursor: nat, count: nat)
    requires
        cursor < count,
    ensures
        next_in_cycle(cursor, count) < count,
        previous_in_cycle(cursor, count) < count,
        previous_in_cycle(next_in_cycle(cursor, count), count) == cursor,
        next_in_cycle(previous_in_cycle(cursor, count), count) == cursor,
        cursor + 1 == count ==> next_in_cycle(cursor, count) == 0,
        cursor == 0 ==> previous_in_cycle(cursor, count) == count - 1,
{
}

/// Moves a cursor one entry down, wrapping at the end.
pub fn cycle_next(cursor: usize, count: usize) -> (next: usize)
    ensures
        next == next_in_cycle(cursor as nat, count as nat),
        count > 0 ==> next < count,
{
    if cursor < count && cursor + 1 < count {
        cursor + 1
    } else {
        0
    }
}

/// Moves a cursor one entry up, wrapping at the start.
pub fn cycle_previous(cursor: usize, count: usize) -> (previous: usize)
    ensures
        previous == previous_in_cycle(cursor as nat, count as nat),
        count > 0 ==> previous < count,
{
    if count == 0 {
        0
    } else if cursor == 0 || cursor >= count {
        count - 1
    } else {
        cursor - 1
    }
}

} // verus!
