//! The application state and the actions, fetch results and viewport changes
//! that change it.

use crate::catalog::holds_positions;
use crate::catalog::matching_positions;
use crate::catalog::TickerCatalog;
use crate::input::action_for;
use crate::input::bound_action;
use crate::input::Action;
use crate::input::InputMode;
use crate::input::Key;
use crate::model::AppModel;
use crate::model::Options;
use crate::quote::StockData;
use crate::error::FetchError;
use crate::fetch::collect_enabled;
use crate::fetch::FetchRequest;
use crate::payload::YFResponse;
use crate::quote::transform;
use crate::scheduler::RefreshScheduler;
use crate::scheduler::Viewport;
use crate::scheduler::DEFAULT_RESIZE_DEBOUNCE_MS;
use crate::scheduler::DEFAULT_TICK_INTERVAL_MS;
use crate::settings::cycle_next;
use crate::settings::cycle_previous;
use crate::settings::Activation;
use crate::settings::ChartKind;
use crate::settings::IndicatorOption;
use crate::settings::Interval;
use crate::settings::SettingsItem;
use crate::settings::Timeframe;
use crate::settings::Toggle;
use crate::settings::INTERVAL_COUNT;
use crate::settings::SETTINGS_ITEM_COUNT;
use crate::settings::TIMEFRAME_COUNT;
use crate::text::text_of;
use vstd::prelude::*;

verus! {

/// The application state. It is owned by the event loop and changed through
/// its methods only.
#[derive(Debug)]
pub struct App {
    ticker: String,
    mode: InputMode,
    should_quit: bool,
    options: Options,
    catalog: TickerCatalog,
    search: Vec<char>,
    search_cursor: usize,
    filtered: Vec<usize>,
    selected: usize,
    settings_cursor: usize,
    indicator_cursor: usize,
    timeframe_cursor: usize,
    interval_cursor: usize,
    indicators: Vec<IndicatorOption>,
    enabled: Vec<bool>,
    data: Option<StockData>,
    error: Option<FetchError>,
    scheduler: RefreshScheduler,
    in_flight: bool,
}

impl View for App {
    type V = AppModel;

    closed spec fn view(&self) -> AppModel {
        AppModel {
            ticker: self.ticker@,
            mode: self.mode,
            should_quit: self.should_quit,
            options: self.options,
            catalog: self.catalog@,
            search: self.search@,
            search_cursor: self.search_cursor as nat,
            filtered: self.filtered@.map_values(|i: usize| i as int),
            selected: self.selected as nat,
            settings_cursor: self.settings_cursor as nat,
            indicator_cursor: self.indicator_cursor as nat,
            timeframe_cursor: self.timeframe_cursor as nat,
            interval_cursor: self.interval_cursor as nat,
            indicators: self.indicators@,
            enabled: self.enabled@,
            data: self.data,
            error: self.error,
            scheduler: self.scheduler@,
            in_flight: self.in_flight,
        }
    }
}

impl App {
    /// The state at start.
    pub fn new(ticker: String) -> (app: App)
        ensures
            app@ =~= AppModel::initial(ticker@),
    {
        App {
            ticker,
            mode: InputMode::Browsing,
            should_quit: false,
            options: Options {
                timeframe: Timeframe::OneDay,
                interval: Interval::OneMinute,
                chart_kind: ChartKind::Line,
                use_24h: true,
                price_view: false,
                show_header: true,
                show_help: false,
                show_pre_market: false,
            },
            catalog: TickerCatalog::empty(),
            search: Vec::new(),
            search_cursor: 0,
            filtered: Vec::new(),
            selected: 0,
            settings_cursor: 0,
            indicator_cursor: 0,
            timeframe_cursor: 0,
            interval_cursor: 0,
            indicators: Vec::new(),
            enabled: Vec::new(),
            data: None,
            error: None,
            scheduler: RefreshScheduler::new(
                DEFAULT_TICK_INTERVAL_MS,
                DEFAULT_RESIZE_DEBOUNCE_MS,
                0,
                Viewport { width: 0, height: 0 },
            ),
            in_flight: false,
        }
    }

    /// The same state with a reference table of tickers, searched with the
    /// current content of the search buffer.
    pub fn with_catalog(self, catalog: TickerCatalog) -> (app: App)
        ensures
            app@ =~= self@.with_catalog(catalog@),
    {
        let mut app = self;
        app.catalog = catalog;
        app.refilter();
        app
    }

    /// The same state with the given indicators on offer, none of them
    /// enabled.
    pub fn with_indicators(self, indicators: Vec<IndicatorOption>) -> (app: App)
        ensures
            app@ =~= self@.with_indicators(indicators@),
    {
        let mut enabled: Vec<bool> = Vec::new();
        let mut i: usize = 0;
        while i < indicators.len()
            invariant
                i <= indicators@.len(),
                enabled@ =~= Seq::new(i as nat, |k: int| false),
            decreases indicators@.len() - i,
        {
            enabled.push(false);
            i += 1;
        }
        let mut app = self;
        app.indicators = indicators;
        app.enabled = enabled;
        app.indicator_cursor = 0;
        app
    }

    /// The same state with another scheduler.
    pub fn with_scheduler(self, scheduler: RefreshScheduler) -> (app: App)
        ensures
            app@ =~= self@.with_scheduler(scheduler@),
    {
        let mut app = self;
        app.scheduler = scheduler;
        app
    }

    /// Shows or hides the pre-market part of the session.
    pub fn toggle_pre_market(&mut self)
        ensures
            final(self)@ =~= old(self)@.step_browsing(Action::TogglePreMarket),
    {
        self.options.show_pre_market = !self.options.show_pre_market;
    }

    /// Shows or hides the help.
    pub fn toggle_help(&mut self)
        ensures
            final(self)@ =~= old(self)@.step_browsing(Action::ToggleHelp),
    {
        self.options.show_help = !self.options.show_help;
    }

    /// Finds the matches of the search buffer anew and selects the first.
    fn refilter(&mut self)
        ensures
            final(self)@ =~= old(self)@.with_search(old(self)@.search, old(self)@.search_cursor),
    {
        let query = text_of(&self.search);
        let indices = self.catalog.filter_positions(query.as_str());
        proof {
            assert(indices@.map_values(|i: usize| i as int) =~= matching_positions(
                self.catalog@,
                self.search@,
            ));
        }
        self.filtered = indices;
        self.selected = 0;
    }

    /// Leaves a menu or the search for the dashboard and forces a refresh.
    fn return_to_browsing(&mut self)
        ensures
            final(self)@ =~= old(self)@.back_to_browsing(),
    {
        self.mode = InputMode::Browsing;
        self.scheduler.force();
    }

    /// Carries out an action in the dashboard.
    fn apply_browsing(&mut self, action: Action)
        ensures
            final(self)@ =~= old(self)@.step_browsing(action),
    {
        match action {
            Action::TogglePreMarket => {
                self.toggle_pre_market();
            },
            Action::ToggleHelp => {
                self.toggle_help();
            },
            Action::OpenSearch => {
                self.search = Vec::new();
                self.search_cursor = 0;
                self.refilter();
                self.mode = InputMode::SearchingTicker;
            },
            Action::OpenSettings => {
                self.mode = InputMode::SettingsRoot;
                self.settings_cursor = 0;
            },
            _ => {},
        }
    }

    /// The cursor of the search buffer, held inside the buffer.
    fn insertion_point(&self) -> (at: usize)
        ensures
            at == self@.insertion_point(),
            at <= self@.search.len(),
    {
        if self.search_cursor <= self.search.len() {
            self.search_cursor
        } else {
            self.search.len()
        }
    }

    /// Types a character into the search buffer at the cursor.
    fn search_insert(&mut self, c: char)
        ensures
            final(self)@ =~= old(self)@.step_search(Action::Insert(c)),
    {
        let at = self.insertion_point();
        self.search.insert(at, c);
        // The buffer has grown, so the position after the new character
        // exists.
        if at < self.search.len() {
            self.search_cursor = at + 1;
        }
        self.refilter();
    }

    /// Deletes the character before the cursor of the search buffer.
    fn search_delete_back(&mut self)
        ensures
            final(self)@ =~= old(self)@.step_search(Action::DeleteBack),
    {
        let at = self.insertion_point();
        if at > 0 {
            self.search.remove(at - 1);
            self.search_cursor = at - 1;
            self.refilter();
        }
    }

    /// Moves the cursor of the search buffer by one character.
    fn search_move_cursor(&mut self, right: bool)
        ensures
            final(self)@ =~= old(self)@.step_search(
                if right {
                    Action::CursorRight
                } else {
                    Action::CursorLeft
                },
            ),
    {
        let at = self.insertion_point();
        if right {
            self.search_cursor = if at < self.search.len() {
                at + 1
            } else {
                at
            };
        } else {
            self.search_cursor = if at > 0 {
                at - 1
            } else {
                0
            };
        }
    }

    /// Moves the selection among the matches by one entry.
    fn search_move_selection(&mut self, down: bool)
        ensures
            final(self)@ =~= old(self)@.step_search(
                if down {
                    Action::SelectNext
                } else {
                    Action::SelectPrevious
                },
            ),
    {
        if down {
            self.selected = cycle_next(self.selected, self.filtered.len());
        } else {
            self.selected = cycle_previous(self.selected, self.filtered.len());
        }
    }

    /// Tracks the selected match, if there is one.
    fn search_confirm(&mut self)
        ensures
            final(self)@ =~= old(self)@.step_search(Action::Confirm),
    {
        if self.selected < self.filtered.len() {
            let row: usize = self.filtered[self.selected];
            let symbol = match self.catalog.get(row) {
                Some(record) => Some(record.symbol.clone()),
                None => None,
            };
            match symbol {
                Some(symbol) => {
                    self.ticker = symbol;
                    self.return_to_browsing();
                },
                None => {},
            }
        }
    }

    /// Leaves the search and discards the buffer.
    fn search_cancel(&mut self)
        ensures
            final(self)@ =~= old(self)@.step_search(Action::Cancel),
    {
        self.search = Vec::new();
        self.search_cursor = 0;
        self.refilter();
        self.return_to_browsing();
    }

    /// Carries out an action in the search.
    fn apply_search(&mut self, action: Action)
        ensures
            final(self)@ =~= old(self)@.step_search(action),
    {
        match action {
            Action::Insert(c) => self.search_insert(c),
            Action::DeleteBack => self.search_delete_back(),
            Action::CursorLeft => self.search_move_cursor(false),
            Action::CursorRight => self.search_move_cursor(true),
            Action::SelectPrevious => self.search_move_selection(false),
            Action::SelectNext => self.search_move_selection(true),
            Action::Confirm => self.search_confirm(),
            Action::Cancel => self.search_cancel(),
            _ => {},
        }
    }

    /// Flips a display switch of the root menu.
    fn flip(&mut self, toggle: Toggle)
        ensures
            final(self)@ =~= old(self)@.activated(Activation::Flip(toggle)),
    {
        match toggle {
            Toggle::Clock24h => {
                self.options.use_24h = !self.options.use_24h;
            },
            Toggle::PriceView => {
                self.options.price_view = !self.options.price_view;
            },
            Toggle::Header => {
                self.options.show_header = !self.options.show_header;
            },
            Toggle::Candlestick => {
                let kind = self.options.chart_kind.toggle();
                self.options.chart_kind = kind;
                match kind {
                    ChartKind::Candlestick => {
                        self.options.price_view = true;
                    },
                    ChartKind::Line => {},
                }
            },
        }
    }

    /// Opens a nested menu with its cursor on the first entry.
    fn enter_menu(&mut self, mode: InputMode)
        ensures
            final(self)@ =~= old(self)@.activated(Activation::Enter(mode)),
    {
        match mode {
            InputMode::SettingsIndicators => {
                self.mode = mode;
                self.indicator_cursor = 0;
            },
            InputMode::SettingsTimeframe => {
                self.mode = mode;
                self.timeframe_cursor = 0;
            },
            InputMode::SettingsInterval => {
                self.mode = mode;
                self.interval_cursor = 0;
            },
            _ => {},
        }
    }

    /// Activates the item under the cursor of the root menu.
    fn settings_confirm(&mut self)
        ensures
            final(self)@ =~= old(self)@.step_settings_root(Action::Confirm),
    {
        match SettingsItem::from_index(self.settings_cursor) {
            Some(item) => match item.activate() {
                Activation::Flip(toggle) => self.flip(toggle),
                Activation::Enter(mode) => self.enter_menu(mode),
                Activation::SaveAndExit => self.return_to_browsing(),
            },
            None => {},
        }
    }

    /// Carries out an action in the root menu of the settings.
    fn apply_settings_root(&mut self, action: Action)
        ensures
            final(self)@ =~= old(self)@.step_settings_root(action),
    {
        match action {
            Action::SelectPrevious => {
                self.settings_cursor = cycle_previous(self.settings_cursor, SETTINGS_ITEM_COUNT);
            },
            Action::SelectNext => {
                self.settings_cursor = cycle_next(self.settings_cursor, SETTINGS_ITEM_COUNT);
            },
            Action::Confirm => self.settings_confirm(),
            Action::Cancel => self.return_to_browsing(),
            _ => {},
        }
    }

    /// Switches the indicator under the cursor on or off.
    fn switch_indicator(&mut self)
        ensures
            final(self)@ =~= old(self)@.with_indicator_switched(),
    {
        let at = self.indicator_cursor;
        if at < self.enabled.len() && at < self.indicators.len() {
            let enable = !self.enabled[at];
            self.enabled.set(at, enable);
            if enable && self.indicators[at].requires_price {
                self.options.price_view = true;
            }
        }
    }

    /// Carries out an action in the menu of indicators.
    fn apply_indicators(&mut self, action: Action)
        ensures
            final(self)@ =~= old(self)@.step_indicators(action),
    {
        match action {
            Action::SelectPrevious => {
                self.indicator_cursor = cycle_previous(
                    self.indicator_cursor,
                    self.indicators.len(),
                );
            },
            Action::SelectNext => {
                self.indicator_cursor = cycle_next(self.indicator_cursor, self.indicators.len());
            },
            Action::Confirm => self.switch_indicator(),
            Action::Cancel => {
                self.mode = InputMode::SettingsRoot;
            },
            _ => {},
        }
    }

    /// Carries out an action in the menu of timeframes.
    fn apply_timeframe(&mut self, action: Action)
        ensures
            final(self)@ =~= old(self)@.step_timeframe(action),
    {
        match action {
            Action::SelectPrevious => {
                self.timeframe_cursor = cycle_previous(self.timeframe_cursor, TIMEFRAME_COUNT);
            },
            Action::SelectNext => {
                self.timeframe_cursor = cycle_next(self.timeframe_cursor, TIMEFRAME_COUNT);
            },
            Action::Confirm => {
                match Timeframe::from_index(self.timeframe_cursor) {
                    Some(timeframe) => {
                        self.options.timeframe = timeframe;
                        self.options.interval = timeframe.default_interval();
                        self.mode = InputMode::SettingsRoot;
                    },
                    None => {},
                }
            },
            Action::Cancel => {
                self.mode = InputMode::SettingsRoot;
            },
            _ => {},
        }
    }

    /// Carries out an action in the menu of intervals.
    fn apply_interval(&mut self, action: Action)
        ensures
            final(self)@ =~= old(self)@.step_interval(action),
    {
        match action {
            Action::SelectPrevious => {
                self.interval_cursor = cycle_previous(self.interval_cursor, INTERVAL_COUNT);
            },
            Action::SelectNext => {
                self.interval_cursor = cycle_next(self.interval_cursor, INTERVAL_COUNT);
            },
            Action::Confirm => {
                match Interval::from_index(self.interval_cursor) {
                    Some(interval) => {
                        self.options.interval = interval;
                        self.mode = InputMode::SettingsRoot;
                    },
                    None => {},
                }
            },
            Action::Cancel => {
                self.mode = InputMode::SettingsRoot;
            },
            _ => {},
        }
    }

    /// Carries out an action of the user.
    pub fn apply(&mut self, action: Action)
        ensures
            final(self)@ =~= old(self)@.step(action),
    {
        match action {
            Action::Quit => {
                self.should_quit = true;
            },
            Action::Ignore => {},
            _ => match self.mode {
                InputMode::Browsing => self.apply_browsing(action),
                InputMode::SearchingTicker => self.apply_search(action),
                InputMode::SettingsRoot => self.apply_settings_root(action),
                InputMode::SettingsIndicators => self.apply_indicators(action),
                InputMode::SettingsTimeframe => self.apply_timeframe(action),
                InputMode::SettingsInterval => self.apply_interval(action),
            },
        }
    }

    /// Carries out the action that a key stands for in the current mode.
    pub fn handle_key(&mut self, key: Key)
        ensures
            final(self)@ =~= old(self)@.step(bound_action(old(self)@.mode, key)),
    {
        let action = action_for(self.mode, key);
        self.apply(action);
    }

    /// Records the size with which the viewport is seen at `now`.
    pub fn observe_viewport(&mut self, now: u64, size: Viewport)
        ensures
            final(self)@ =~= old(self)@.after_viewport(now as nat, size),
    {
        self.scheduler.record_resize(now, size);
    }

    /// Decides whether a fetch should be issued now.
    pub fn refresh_due(&self, now: u64, size: Viewport) -> (due: bool)
        ensures
            due == self@.refresh_due(now as nat, size),
    {
        !self.mode.is_modal() && !self.in_flight && self.scheduler.is_due(now, size)
    }

    /// The request that asks for what the state shows.
    pub fn fetch_request(&self, size: Viewport) -> (request: FetchRequest)
        ensures
            self@.asks(request, size),
            self@.accepts(request),
    {
        FetchRequest {
            symbol: self.ticker.clone(),
            width: size.width,
            height: size.height,
            indicators: collect_enabled(&self.indicators, &self.enabled),
            use_24h: self.options.use_24h,
            price_view: self.options.price_view,
            period: self.options.timeframe,
            interval: self.options.interval,
            chart_kind: self.options.chart_kind,
        }
    }

    /// Sees the viewport and, where a refresh is due, issues the fetch: the
    /// request is returned for the transport to carry out, and no other is
    /// issued until its result has come back.
    pub fn begin_fetch(&mut self, now: u64, size: Viewport) -> (request: Option<FetchRequest>)
        ensures
            ({
                let seen = old(self)@.after_viewport(now as nat, size);
                if seen.refresh_due(now as nat, size) {
                    &&& request matches Some(r)
                    &&& seen.asks(r, size)
                    &&& final(self)@ =~= seen.issued()
                } else {
                    &&& request is None
                    &&& final(self)@ =~= seen
                }
            }),
    {
        self.observe_viewport(now, size);
        if self.refresh_due(now, size) {
            let request = self.fetch_request(size);
            self.in_flight = true;
            Some(request)
        } else {
            None
        }
    }

    /// Shows the quote of a response in place of the old one, or the error
    /// where the response holds no result.
    pub fn update_from_response(&mut self, resp: YFResponse)
        ensures
            resp.chart.result@.len() == 0 ==> final(self)@ =~= old(self)@.with_error(
                FetchError::MalformedResponse,
            ),
            resp.chart.result@.len() > 0 ==> {
                &&& final(self)@.data matches Some(data)
                &&& data.reflects(resp.chart.result@[0])
                &&& data.wf()
                &&& final(self)@ =~= old(self)@.with_data(data)
            },
    {
        match transform(&resp) {
            Ok(data) => {
                self.data = Some(data);
                self.error = None;
            },
            Err(error) => {
                self.error = Some(error);
            },
        }
    }

    /// Decides whether the result of a request still belongs to the state.
    pub fn accepts(&self, request: &FetchRequest) -> (current: bool)
        ensures
            current == self@.accepts(*request),
    {
        request.symbol == self.ticker && request.period == self.options.timeframe
            && request.interval == self.options.interval
    }

    /// Takes in the result of a fetch. A result for a ticker, timeframe or
    /// interval that has been changed since is dropped. A response with a
    /// result replaces the quote, clears the error and restarts the tick
    /// interval. A failure only sets the error: the quote stays as it was.
    pub fn complete_fetch(
        &mut self,
        request: &FetchRequest,
        outcome: Result<YFResponse, FetchError>,
        now: u64,
    )
        ensures
            !old(self)@.accepts(*request) ==> final(self)@ =~= old(self)@.discarded(),
            old(self)@.accepts(*request) ==> (match outcome {
                Err(error) => final(self)@ =~= old(self)@.failed(error),
                Ok(resp) => if resp.chart.result@.len() == 0 {
                    final(self)@ =~= old(self)@.failed(FetchError::MalformedResponse)
                } else {
                    &&& final(self)@.data matches Some(data)
                    &&& data.reflects(resp.chart.result@[0])
                    &&& data.wf()
                    &&& final(self)@ =~= old(self)@.fetched(data, now as nat, request.size())
                },
            }),
    {
        self.in_flight = false;
        if !self.accepts(request) {
            return ;
        }
        match outcome {
            Ok(resp) => {
                let usable = resp.chart.result.len() > 0;
                self.update_from_response(resp);
                if usable {
                    self.scheduler.record_fetch(now, request.viewport());
                }
            },
            Err(error) => {
                self.error = Some(error);
            },
        }
    }

    /// Symbol of the tracked instrument.
    pub fn ticker(&self) -> (ticker: &String)
        ensures
            ticker@ == self@.ticker,
    {
        &self.ticker
    }

    /// The current input mode.
    pub fn mode(&self) -> (mode: InputMode)
        ensures
            mode == self@.mode,
    {
        self.mode
    }

    /// Whether the user has asked to end the program.
    pub fn should_quit(&self) -> (quit: bool)
        ensures
            quit == self@.should_quit,
    {
        self.should_quit
    }

    /// The current options.
    pub fn options(&self) -> (options: Options)
        ensures
            options == self@.options,
    {
        self.options
    }

    /// The result of the last successful fetch.
    pub fn data(&self) -> (data: Option<&StockData>)
        ensures
            data matches Some(d) ==> self@.data == Some(*d),
            data is None ==> self@.data is None,
    {
        self.data.as_ref()
    }

    /// Why the last fetch failed, if no fetch has succeeded since.
    pub fn error(&self) -> (error: Option<FetchError>)
        ensures
            error == self@.error,
    {
        self.error
    }

    /// Whether a fetch has been issued and has not come back.
    pub fn in_flight(&self) -> (in_flight: bool)
        ensures
            in_flight == self@.in_flight,
    {
        self.in_flight
    }

    /// Whole seconds until the next refresh by interval.
    pub fn seconds_until_refresh(&self, now: u64) -> (seconds: u64)
        ensures
            seconds == self@.scheduler.countdown(now as nat),
    {
        self.scheduler.seconds_until_tick(now)
    }

    /// The reference table of tickers.
    pub fn catalog(&self) -> (catalog: &TickerCatalog)
        ensures
            catalog@ == self@.catalog,
    {
        &self.catalog
    }

    /// The content of the search buffer.
    pub fn search_text(&self) -> (text: String)
        ensures
            text@ == self@.search,
    {
        text_of(&self.search)
    }

    /// Position in the search buffer at which typing inserts.
    pub fn search_cursor(&self) -> (cursor: usize)
        ensures
            cursor == self@.search_cursor,
    {
        self.search_cursor
    }

    /// Positions of the catalog rows that match the search buffer.
    pub fn filtered(&self) -> (filtered: &Vec<usize>)
        ensures
            holds_positions(filtered@, self@.filtered),
    {
        &self.filtered
    }

    /// Position of the selected match among the filtered rows.
    pub fn selected(&self) -> (selected: usize)
        ensures
            selected == self@.selected,
    {
        self.selected
    }

    /// The cursor of the menu that belongs to `mode`, or zero for a mode
    /// without a menu.
    pub fn menu_cursor(&self, mode: InputMode) -> (cursor: usize)
        ensures
            cursor == (match mode {
                InputMode::SettingsRoot => self@.settings_cursor,
                InputMode::SettingsIndicators => self@.indicator_cursor,
                InputMode::SettingsTimeframe => self@.timeframe_cursor,
                InputMode::SettingsInterval => self@.interval_cursor,
                _ => 0,
            }),
    {
        match mode {
            InputMode::SettingsRoot => self.settings_cursor,
            InputMode::SettingsIndicators => self.indicator_cursor,
            InputMode::SettingsTimeframe => self.timeframe_cursor,
            InputMode::SettingsInterval => self.interval_cursor,
            _ => 0,
        }
    }

    /// The indicators on offer.
    pub fn indicators(&self) -> (indicators: &Vec<IndicatorOption>)
        ensures
            indicators@ == self@.indicators,
    {
        &self.indicators
    }

    /// For each indicator on offer, whether it is enabled.
    pub fn enabled(&self) -> (enabled: &Vec<bool>)
        ensures
            enabled@ == self@.enabled,
    {
        &self.enabled
    }
}

} // verus!
