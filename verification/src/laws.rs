//! What holds of the application state in every run: its invariant, and the
//! couplings between settings that the menus enforce.

use crate::catalog::matching_positions;
use crate::catalog::record_matches;
use crate::catalog::TickerRecord;
use crate::error::FetchError;
use crate::input::Action;
use crate::input::InputMode;
use crate::model::AppModel;
use crate::positions::lemma_positions_all;
use crate::positions::lemma_positions_ascending;
use crate::positions::lemma_positions_step;
use crate::quote::StockData;
use crate::scheduler::SchedulerModel;
use crate::scheduler::Viewport;
use crate::settings::default_interval_of;
use crate::settings::settings_item_at;
use crate::settings::timeframe_at;
use crate::settings::ChartKind;
use crate::settings::IndicatorOption;
use crate::settings::Interval;
use crate::settings::SettingsItem;
use crate::settings::Timeframe;
use crate::settings::INTERVAL_COUNT;
use crate::settings::SETTINGS_ITEM_COUNT;
use crate::settings::TIMEFRAME_COUNT;
use vstd::prelude::*;

verus! {

/// The invariant of the application state: every cursor points into its
/// list, every indicator has its switch, the matches are those of the search
/// buffer, and the quote is well formed.
pub open spec fn consistent(state: AppModel) -> bool {
    &&& state.search_cursor <= state.search.len()
    &&& state.filtered == matching_positions(state.catalog, state.search)
    &&& (state.selected == 0 || state.selected < state.filtered.len())
    &&& state.settings_cursor < SETTINGS_ITEM_COUNT
    &&& state.timeframe_cursor < TIMEFRAME_COUNT
    &&& state.interval_cursor < INTERVAL_COUNT
    &&& (state.indicator_cursor == 0 || state.indicator_cursor < state.indicators.len())
    &&& state.enabled.len() == state.indicators.len()
    &&& (state.data matches Some(data) ==> data.wf())
}

/// The state at start is consistent.
pub proof fn lemma_initial_consistent(ticker: Seq<char>)
    ensures
        consistent(AppModel::initial(ticker)),
{
    let state = AppModel::initial(ticker);
    lemma_positions_step(0, |i: int| record_matches(state.catalog[i], state.search));
}

/// No action of the user leads out of the consistent states.
pub proof fn lemma_step_keeps_consistent(state: AppModel, action: Action)
    requires
        consistent(state),
    ensures
        consistent(state.step(action)),
{
}

/// Giving the state another catalog, other indicators or another scheduler
/// does not lead out of the consistent states.
pub proof fn lemma_builders_keep_consistent(
    state: AppModel,
    catalog: Seq<TickerRecord>,
    indicators: Seq<IndicatorOption>,
    scheduler: SchedulerModel,
)
    requires
        consistent(state),
    ensures
        consistent(state.with_catalog(catalog)),
        consistent(state.with_indicators(indicators)),
        consistent(state.with_scheduler(scheduler)),
{
}

/// Neither seeing the viewport, nor issuing a fetch, nor any way in which a
/// fetch can come back leads out of the consistent states.
pub proof fn lemma_fetch_cycle_keeps_consistent(
    state: AppModel,
    now: nat,
    size: Viewport,
    data: StockData,
    error: FetchError,
)
    requires
        consistent(state),
        data.wf(),
    ensures
        consistent(state.after_viewport(now, size)),
        consistent(state.issued()),
        consistent(state.discarded()),
        consistent(state.failed(error)),
        consistent(state.fetched(data, now, size)),
        consistent(state.with_data(data)),
        consistent(state.with_error(error)),
{
}

/// Every match that the state lists is a row of the catalog, and the
/// selection, where there are matches, points at one of them.
pub proof fn lemma_selection_points_at_row(state: AppModel)
    requires
        consistent(state),
        state.filtered.len() > 0,
    ensures
        state.selected_row() is Some,
{
    lemma_positions_ascending(
        state.catalog.len(),
        |i: int| record_matches(state.catalog[i], state.search),
    );
}

/// Selecting a timeframe in its menu sets the interval that goes with it and
/// returns to the root menu: one week for two years, one month for five and
/// for ten years, one minute for one day, one day for any other timeframe.
pub proof fn lemma_timeframe_selects_interval(state: AppModel, timeframe: Timeframe)
    requires
        state.mode == InputMode::SettingsTimeframe,
        timeframe_at(state.timeframe_cursor as int) == Some(timeframe),
    ensures
        state.step(Action::Confirm).mode == InputMode::SettingsRoot,
        state.step(Action::Confirm).options.timeframe == timeframe,
        state.step(Action::Confirm).options.interval == default_interval_of(timeframe),
        timeframe == Timeframe::TwoYears ==> state.step(Action::Confirm).options.interval
            == Interval::OneWeek,
        timeframe == Timeframe::FiveYears || timeframe == Timeframe::TenYears ==> state.step(
            Action::Confirm,
        ).options.interval == Interval::OneMonth,
        timeframe == Timeframe::OneDay ==> state.step(Action::Confirm).options.interval
            == Interval::OneMinute,
        timeframe != Timeframe::TwoYears && timeframe != Timeframe::FiveYears && timeframe
            != Timeframe::TenYears && timeframe != Timeframe::OneDay ==> state.step(
            Action::Confirm,
        ).options.interval == Interval::OneDay,
{
}

/// Enabling an indicator that needs absolute prices switches the view to
/// prices, whatever it showed before. Disabling the indicator afterwards
/// leaves the view as it is.
pub proof fn lemma_price_indicator_forces_price_view(state: AppModel)
    requires
        state.mode == InputMode::SettingsIndicators,
        state.indicator_cursor < state.indicators.len(),
        state.indicator_cursor < state.enabled.len(),
        !state.enabled[state.indicator_cursor as int],
        state.indicators[state.indicator_cursor as int].requires_price,
    ensures
        state.step(Action::Confirm).enabled[state.indicator_cursor as int],
        state.step(Action::Confirm).options.price_view,
        !state.step(Action::Confirm).step(Action::Confirm).enabled[state.indicator_cursor as int],
        state.step(Action::Confirm).step(Action::Confirm).options.price_view,
{
}

/// Switching an indicator off never changes the view, and switching one on
/// that does not need absolute prices does not either.
pub proof fn lemma_other_indicators_keep_view(state: AppModel)
    requires
        state.mode == InputMode::SettingsIndicators,
        state.indicator_cursor < state.indicators.len(),
        state.indicator_cursor < state.enabled.len(),
        state.enabled[state.indicator_cursor as int] || !state.indicators[state.indicator_cursor as int]
            .requires_price,
    ensures
        state.step(Action::Confirm).options == state.options,
{
}

/// Switching the chart to candlesticks in the root menu switches the view to
/// prices. Switching back to a line leaves the view as it is.
pub proof fn lemma_candlesticks_force_price_view(state: AppModel)
    requires
        state.mode == InputMode::SettingsRoot,
        settings_item_at(state.settings_cursor as int) == Some(SettingsItem::Candlestick),
        state.options.chart_kind == ChartKind::Line,
    ensures
        state.step(Action::Confirm).mode == InputMode::SettingsRoot,
        state.step(Action::Confirm).options.chart_kind == ChartKind::Candlestick,
        state.step(Action::Confirm).options.price_view,
        state.step(Action::Confirm).step(Action::Confirm).options.chart_kind == ChartKind::Line,
        state.step(Action::Confirm).step(Action::Confirm).options.price_view,
{
}

/// Opening the search empties the buffer, lists the whole catalog in its own
/// order and selects its first row.
pub proof fn lemma_open_search_lists_catalog(state: AppModel)
    requires
        state.mode == InputMode::Browsing,
    ensures
        state.step(Action::OpenSearch).mode == InputMode::SearchingTicker,
        state.step(Action::OpenSearch).search.len() == 0,
        state.step(Action::OpenSearch).search_cursor == 0,
        state.step(Action::OpenSearch).selected == 0,
        state.step(Action::OpenSearch).filtered == Seq::new(state.catalog.len(), |i: int| i),
        state.step(Action::OpenSearch).ticker == state.ticker,
{
    let empty = Seq::<char>::empty();
    lemma_positions_all(state.catalog.len(), |i: int| record_matches(state.catalog[i], empty));
}

/// Confirming the search with a selected row tracks the symbol of that row,
/// returns to the dashboard and forces a refresh.
pub proof fn lemma_confirm_tracks_selection(state: AppModel, row: int)
    requires
        state.mode == InputMode::SearchingTicker,
        state.selected_row() == Some(row),
    ensures
        state.step(Action::Confirm).ticker == state.catalog[row].symbol@,
        state.step(Action::Confirm).mode == InputMode::Browsing,
        state.step(Action::Confirm).scheduler.forced,
{
}

/// A failed fetch changes nothing but the error that is shown and the mark
/// of the fetch on its way: the quote, the ticker, the mode, the settings
/// and the timing all stay.
pub proof fn lemma_failure_keeps_quote(state: AppModel, error: FetchError)
    ensures
        state.failed(error).data == state.data,
        state.failed(error).error == Some(error),
        state.failed(error) == (AppModel { error: Some(error), in_flight: false, ..state }),
{
}

/// Leaving a menu or the search for the dashboard forces a refresh, and no
/// refresh is due while a menu or the search is open.
pub proof fn lemma_modes_gate_refresh(state: AppModel, action: Action, now: nat, size: Viewport)
    ensures
        state.mode.modal() ==> !state.refresh_due(now, size),
        state.mode.modal() && !state.step(action).mode.modal() ==> state.step(
            action,
        ).scheduler.forced,
        state.mode.modal() && !state.step(action).mode.modal() && !state.in_flight ==> state.step(
            action,
        ).refresh_due(now, size),
{
}

/// While a fetch is on its way no other is due.
pub proof fn lemma_one_fetch_in_flight(state: AppModel, now: nat, size: Viewport)
    ensures
        !state.issued().refresh_due(now, size),
{
}

/// Cancelling the search leaves the ticker as it was.
pub proof fn lemma_cancel_keeps_ticker(state: AppModel)
    requires
        state.mode == InputMode::SearchingTicker,
    ensures
        state.step(Action::Cancel).ticker == state.ticker,
        state.step(Action::Cancel).mode == InputMode::Browsing,
        state.step(Action::Cancel).search.len() == 0,
{
}

} // verus!
