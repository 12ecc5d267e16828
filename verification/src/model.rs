//! The application state as a mathematical value, and the transition that
//! each user action makes on it.

use crate::catalog::matching_positions;
use crate::catalog::TickerRecord;
use crate::error::FetchError;
use crate::fetch::enabled_names;
use crate::fetch::texts_of;
use crate::fetch::FetchRequest;
use crate::input::Action;
use crate::input::InputMode;
use crate::quote::StockData;
use crate::scheduler::SchedulerModel;
use crate::scheduler::Viewport;
use crate::scheduler::DEFAULT_RESIZE_DEBOUNCE_MS;
use crate::scheduler::DEFAULT_TICK_INTERVAL_MS;
use crate::settings::default_interval_of;
use crate::settings::interval_at;
use crate::settings::next_in_cycle;
use crate::settings::previous_in_cycle;
use crate::settings::settings_item_at;
use crate::settings::timeframe_at;
use crate::settings::Activation;
use crate::settings::ChartKind;
use crate::settings::IndicatorOption;
use crate::settings::Interval;
use crate::settings::Timeframe;
use crate::settings::Toggle;
use crate::settings::INTERVAL_COUNT;
use crate::settings::SETTINGS_ITEM_COUNT;
use crate::settings::TIMEFRAME_COUNT;
use vstd::prelude::*;

verus! {

/// The options that the settings change and a fetch is made with.
#[derive(Debug, Clone, Copy, PartialEq, Eq, Structural)]
pub struct Options {
    pub timeframe: Timeframe,
    pub interval: Interval,
    pub chart_kind: ChartKind,
    /// Times in 24-hour notation.
    pub use_24h: bool,
    /// Prices in place of percent changes.
    pub price_view: bool,
    pub show_header: bool,
    pub show_help: bool,
    pub show_pre_market: bool,
}

impl Options {
    /// The options after a display switch of the root menu was flipped.
    /// Switching to candlesticks also switches to prices, because candles
    /// have no percent baseline; nothing switches back by itself.
    pub open spec fn flipped(self, toggle: Toggle) -> Options {
        match toggle {
            Toggle::Clock24h => Options { use_24h: !self.use_24h, ..self },
            Toggle::PriceView => Options { price_view: !self.price_view, ..self },
            Toggle::Header => Options { show_header: !self.show_header, ..self },
            Toggle::Candlestick => Options {
                chart_kind: self.chart_kind.toggled(),
                price_view: self.price_view || self.chart_kind.toggled() == ChartKind::Candlestick,
                ..self
            },
        }
    }

    /// The options after a timeframe was selected: the interval follows it.
    pub open spec fn with_timeframe(self, timeframe: Timeframe) -> Options {
        Options { timeframe, interval: default_interval_of(timeframe), ..self }
    }
}

/// The whole state of the application.
#[verifier::ext_equal]
pub struct AppModel {
    /// Symbol of the tracked instrument.
    pub ticker: Seq<char>,
    pub mode: InputMode,
    pub should_quit: bool,
    pub options: Options,
    /// The reference table of tickers.
    pub catalog: Seq<TickerRecord>,
    /// The search buffer.
    pub search: Seq<char>,
    /// Position in the search buffer at which typing inserts.
    pub search_cursor: nat,
    /// Positions of the catalog rows that match the search buffer.
    pub filtered: Seq<int>,
    /// Position of the selected match among the filtered rows.
    pub selected: nat,
    pub settings_cursor: nat,
    pub indicator_cursor: nat,
    pub timeframe_cursor: nat,
    pub interval_cursor: nat,
    /// The indicators on offer.
    pub indicators: Seq<IndicatorOption>,
    /// For each indicator on offer, whether it is enabled.
    pub enabled: Seq<bool>,
    /// The result of the last successful fetch.
    pub data: Option<StockData>,
    /// Why the last fetch failed, until the next one succeeds.
    pub error: Option<FetchError>,
    pub scheduler: SchedulerModel,
    /// Whether a fetch has been issued and has not come back.
    pub in_flight: bool,
}

/// The options of a freshly started application: one day of history in
/// steps of one minute, a line of percent changes, regular hours only.
pub open spec fn initial_options() -> Options {
    Options {
        timeframe: Timeframe::OneDay,
        interval: Interval::OneMinute,
        chart_kind: ChartKind::Line,
        use_24h: true,
        price_view: false,
        show_header: true,
        show_help: false,
        show_pre_market: false,
    }
}

impl AppModel {
    /// The state at start: the dashboard of `ticker`, nothing fetched yet, an
    /// empty catalog, no indicators on offer, and a scheduler with the
    /// default timing, started at time zero with an empty viewport.
    pub open spec fn initial(ticker: Seq<char>) -> AppModel {
        AppModel {
            ticker,
            mode: InputMode::Browsing,
            should_quit: false,
            options: initial_options(),
            catalog: Seq::empty(),
            search: Seq::empty(),
            search_cursor: 0,
            filtered: Seq::empty(),
            selected: 0,
            settings_cursor: 0,
            indicator_cursor: 0,
            timeframe_cursor: 0,
            interval_cursor: 0,
            indicators: Seq::empty(),
            enabled: Seq::empty(),
            data: None,
            error: None,
            scheduler: SchedulerModel::started(
                DEFAULT_TICK_INTERVAL_MS as nat,
                DEFAULT_RESIZE_DEBOUNCE_MS as nat,
                0,
                Viewport { width: 0, height: 0 },
            ),
            in_flight: false,
        }
    }

    /// The state with another reference table of tickers, searched with the
    /// current content of the search buffer.
    pub open spec fn with_catalog(self, catalog: Seq<TickerRecord>) -> AppModel {
        AppModel { catalog, ..self }.with_search(self.search, self.search_cursor)
    }

    /// The state with other indicators on offer, none of them enabled.
    pub open spec fn with_indicators(self, indicators: Seq<IndicatorOption>) -> AppModel {
        AppModel {
            indicators,
            enabled: Seq::new(indicators.len(), |i: int| false),
            indicator_cursor: 0,
            ..self
        }
    }

    /// The state with another scheduler.
    pub open spec fn with_scheduler(self, scheduler: SchedulerModel) -> AppModel {
        AppModel { scheduler, ..self }
    }

    /// The cursor of the search buffer, held inside the buffer.
    pub open spec fn insertion_point(self) -> nat {
        if self.search_cursor <= self.search.len() {
            self.search_cursor
        } else {
            self.search.len()
        }
    }

    /// The state with a new content of the search buffer: the matches are
    /// found anew and the first of them is selected.
    pub open spec fn with_search(self, search: Seq<char>, cursor: nat) -> AppModel {
        AppModel {
            search,
            search_cursor: cursor,
            filtered: matching_positions(self.catalog, search),
            selected: 0,
            ..self
        }
    }

    /// The state back in the dashboard, with a refresh forced so that what
    /// was changed in a menu shows at once.
    pub open spec fn back_to_browsing(self) -> AppModel {
        AppModel {
            mode: InputMode::Browsing,
            scheduler: self.scheduler.after_force(),
            ..self
        }
    }

    /// The catalog row under the selection, if the selection points at one.
    pub open spec fn selected_row(self) -> Option<int> {
        if self.selected < self.filtered.len() && 0 <= self.filtered[self.selected as int]
            < self.catalog.len() {
            Some(self.filtered[self.selected as int])
        } else {
            None
        }
    }

    /// What an action does in the dashboard.
    pub open spec fn step_browsing(self, action: Action) -> AppModel {
        match action {
            Action::TogglePreMarket => AppModel {
                options: Options {
                    show_pre_market: !self.options.show_pre_market,
                    ..self.options
                },
                ..self
            },
            Action::ToggleHelp => AppModel {
                options: Options { show_help: !self.options.show_help, ..self.options },
                ..self
            },
            Action::OpenSearch => AppModel {
                mode: InputMode::SearchingTicker,
                ..self.with_search(Seq::empty(), 0)
            },
            Action::OpenSettings => AppModel {
                mode: InputMode::SettingsRoot,
                settings_cursor: 0,
                ..self
            },
            _ => self,
        }
    }

    /// What an action does in the search.
    pub open spec fn step_search(self, action: Action) -> AppModel {
        let at = self.insertion_point();
        match action {
            Action::Insert(c) => self.with_search(self.search.insert(at as int, c), at + 1),
            Action::DeleteBack => if at > 0 {
                self.with_search(self.search.remove(at - 1), (at - 1) as nat)
            } else {
                self
            },
            Action::CursorLeft => AppModel {
                search_cursor: if at > 0 {
                    (at - 1) as nat
                } else {
                    0
                },
                ..self
            },
            Action::CursorRight => AppModel {
                search_cursor: if at < self.search.len() {
                    at + 1
                } else {
                    at
                },
                ..self
            },
            Action::SelectPrevious => AppModel {
                selected: previous_in_cycle(self.selected, self.filtered.len()),
                ..self
            },
            Action::SelectNext => AppModel {
                selected: next_in_cycle(self.selected, self.filtered.len()),
                ..self
            },
            Action::Confirm => match self.selected_row() {
                Some(row) => AppModel { ticker: self.catalog[row].symbol@, ..self }.back_to_browsing(),
                None => self,
            },
            Action::Cancel => self.with_search(Seq::empty(), 0).back_to_browsing(),
            _ => self,
        }
    }

    /// What activating an item of the root menu does.
    pub open spec fn activated(self, activation: Activation) -> AppModel {
        match activation {
            Activation::Flip(toggle) => AppModel { options: self.options.flipped(toggle), ..self },
            Activation::Enter(mode) => match mode {
                InputMode::SettingsIndicators => AppModel { mode, indicator_cursor: 0, ..self },
                InputMode::SettingsTimeframe => AppModel { mode, timeframe_cursor: 0, ..self },
                InputMode::SettingsInterval => AppModel { mode, interval_cursor: 0, ..self },
                _ => self,
            },
            Activation::SaveAndExit => self.back_to_browsing(),
        }
    }

    /// What an action does in the root menu of the settings.
    pub open spec fn step_settings_root(self, action: Action) -> AppModel {
        match action {
            Action::SelectPrevious => AppModel {
                settings_cursor: previous_in_cycle(self.settings_cursor, SETTINGS_ITEM_COUNT as nat),
                ..self
            },
            Action::SelectNext => AppModel {
                settings_cursor: next_in_cycle(self.settings_cursor, SETTINGS_ITEM_COUNT as nat),
                ..self
            },
            Action::Confirm => match settings_item_at(self.settings_cursor as int) {
                Some(item) => self.activated(item.activation()),
                None => self,
            },
            Action::Cancel => self.back_to_browsing(),
            _ => self,
        }
    }

    /// The state after the indicator under the cursor was switched. Enabling
    /// an indicator that needs absolute prices also switches to prices;
    /// disabling it switches nothing back.
    pub open spec fn with_indicator_switched(self) -> AppModel {
        let at = self.indicator_cursor as int;
        if at < self.enabled.len() && at < self.indicators.len() {
            AppModel {
                enabled: self.enabled.update(at, !self.enabled[at]),
                options: Options {
                    price_view: self.options.price_view || (!self.enabled[at]
                        && self.indicators[at].requires_price),
                    ..self.options
                },
                ..self
            }
        } else {
            self
        }
    }

    /// What an action does in the menu of indicators.
    pub open spec fn step_indicators(self, action: Action) -> AppModel {
        match action {
            Action::SelectPrevious => AppModel {
                indicator_cursor: previous_in_cycle(self.indicator_cursor, self.indicators.len()),
                ..self
            },
            Action::SelectNext => AppModel {
                indicator_cursor: next_in_cycle(self.indicator_cursor, self.indicators.len()),
                ..self
            },
            Action::Confirm => self.with_indicator_switched(),
            Action::Cancel => AppModel { mode: InputMode::SettingsRoot, ..self },
            _ => self,
        }
    }

    /// What an action does in the menu of timeframes.
    pub open spec fn step_timeframe(self, action: Action) -> AppModel {
        match action {
            Action::SelectPrevious => AppModel {
                timeframe_cursor: previous_in_cycle(self.timeframe_cursor, TIMEFRAME_COUNT as nat),
                ..self
            },
            Action::SelectNext => AppModel {
                timeframe_cursor: next_in_cycle(self.timeframe_cursor, TIMEFRAME_COUNT as nat),
                ..self
            },
            Action::Confirm => match timeframe_at(self.timeframe_cursor as int) {
                Some(timeframe) => AppModel {
                    mode: InputMode::SettingsRoot,
                    options: self.options.with_timeframe(timeframe),
                    ..self
                },
                None => self,
            },
            Action::Cancel => AppModel { mode: InputMode::SettingsRoot, ..self },
            _ => self,
        }
    }

    /// What an action does in the menu of intervals.
    pub open spec fn step_interval(self, action: Action) -> AppModel {
        match action {
            Action::SelectPrevious => AppModel {
                interval_cursor: previous_in_cycle(self.interval_cursor, INTERVAL_COUNT as nat),
                ..self
            },
            Action::SelectNext => AppModel {
                interval_cursor: next_in_cycle(self.interval_cursor, INTERVAL_COUNT as nat),
                ..self
            },
            Action::Confirm => match interval_at(self.interval_cursor as int) {
                Some(interval) => AppModel {
                    mode: InputMode::SettingsRoot,
                    options: Options { interval, ..self.options },
                    ..self
                },
                None => self,
            },
            Action::Cancel => AppModel { mode: InputMode::SettingsRoot, ..self },
            _ => self,
        }
    }

    /// The state after an action. Quitting is possible in every mode; what
    /// any other action does depends on the mode, and an action that has no
    /// meaning in the mode changes nothing.
    pub open spec fn step(self, action: Action) -> AppModel {
        match action {
            Action::Quit => AppModel { should_quit: true, ..self },
            Action::Ignore => self,
            _ => match self.mode {
                InputMode::Browsing => self.step_browsing(action),
                InputMode::SearchingTicker => self.step_search(action),
                InputMode::SettingsRoot => self.step_settings_root(action),
                InputMode::SettingsIndicators => self.step_indicators(action),
                InputMode::SettingsTimeframe => self.step_timeframe(action),
                InputMode::SettingsInterval => self.step_interval(action),
            },
        }
    }

    /// The state after the viewport was seen with `size` at `now`.
    pub open spec fn after_viewport(self, now: nat, size: Viewport) -> AppModel {
        AppModel { scheduler: self.scheduler.after_resize(now, size), ..self }
    }

    /// Whether a fetch should be issued now. None is issued while a menu or
    /// the search is open, nor while another fetch is on its way.
    pub open spec fn refresh_due(self, now: nat, size: Viewport) -> bool {
        !self.mode.modal() && !self.in_flight && self.scheduler.due(now, size)
    }

    /// Whether `request` asks for what this state shows, for a viewport of
    /// `size`.
    pub open spec fn asks(self, request: FetchRequest, size: Viewport) -> bool {
        &&& request.symbol@ == self.ticker
        &&& request.size() == size
        &&& texts_of(request.indicators@) == enabled_names(self.indicators, self.enabled)
        &&& request.use_24h == self.options.use_24h
        &&& request.price_view == self.options.price_view
        &&& request.period == self.options.timeframe
        &&& request.interval == self.options.interval
        &&& request.chart_kind == self.options.chart_kind
    }

    /// Whether the result of `request` still belongs to this state: the
    /// ticker, the timeframe and the interval are those it was issued for.
    pub open spec fn accepts(self, request: FetchRequest) -> bool {
        &&& request.symbol@ == self.ticker
        &&& request.period == self.options.timeframe
        &&& request.interval == self.options.interval
    }

    /// The state that shows a new quote: it replaces the old one as a whole
    /// and clears the error.
    pub open spec fn with_data(self, data: StockData) -> AppModel {
        AppModel { data: Some(data), error: None, ..self }
    }

    /// The state that shows an error beside whatever was shown before.
    pub open spec fn with_error(self, error: FetchError) -> AppModel {
        AppModel { error: Some(error), ..self }
    }

    /// The state after a fetch was issued.
    pub open spec fn issued(self) -> AppModel {
        AppModel { in_flight: true, ..self }
    }

    /// The state after a fetch came back with a result that no longer
    /// belongs to it.
    pub open spec fn discarded(self) -> AppModel {
        AppModel { in_flight: false, ..self }
    }

    /// The state after a fetch for a viewport of `size` succeeded at `now`.
    pub open spec fn fetched(self, data: StockData, now: nat, size: Viewport) -> AppModel {
        AppModel {
            scheduler: self.scheduler.after_fetch(now, size),
            in_flight: false,
            ..self.with_data(data)
        }
    }

    /// The state after a fetch failed: the error is shown, and what was
    /// shown before stays.
    pub open spec fn failed(self, error: FetchError) -> AppModel {
        AppModel { in_flight: false, ..self.with_error(error) }
    }
}

} // verus!
