//! The read-only projection of the application state that the renderer
//! draws.

use crate::app::App;
use crate::chart::baseline_of;
use crate::chart::build_chart;
use crate::chart::ChartSeries;
use crate::chart::ValueMode;
use crate::error::FetchError;
use crate::header::trend;
use crate::header::trend_of;
use crate::header::volume_label;
use crate::header::volume_label_of;
use crate::header::Trend;
use crate::header::VolumeLabel;
use crate::input::InputMode;
use crate::model::AppModel;
use crate::model::Options;
use crate::price::change;
use crate::price::change_of;
use crate::price::magnitude;
use crate::quote::timed_prices;
use crate::quote::timed_series;
use crate::quote::StockData;
use crate::session::SessionWindow;
use vstd::prelude::*;

verus! {

/// What the header shows of a quote beyond its own numbers.
#[derive(Debug, Clone, Copy, PartialEq, Eq, Structural)]
pub struct HeaderView {
    /// Direction of the change since the previous close.
    pub trend: Trend,
    /// Difference between price and previous close, in price units.
    pub change: i128,
    /// Size of the percent change without its sign.
    pub percent_magnitude: u128,
    /// The volume in a readable unit.
    pub volume: VolumeLabel,
}

/// Everything that one frame is drawn from.
#[derive(Debug)]
pub struct ViewModel {
    pub mode: InputMode,
    pub options: Options,
    /// The error of the last fetch, shown until a fetch succeeds.
    pub error: Option<FetchError>,
    /// Whole seconds until the next refresh by interval.
    pub countdown_secs: u64,
    /// The header of the quote, absent until a fetch has succeeded.
    pub header: Option<HeaderView>,
    /// The chart, absent until a fetch has delivered at least one price.
    pub chart: Option<ChartSeries>,
    /// Whether the help is laid over the chart: in the dashboard, with the
    /// help switched on, and only once there is a chart.
    pub help_visible: bool,
}

/// The value mode that the price-view switch selects.
pub open spec fn mode_of(price_view: bool) -> ValueMode {
    if price_view {
        ValueMode::Price
    } else {
        ValueMode::Percent
    }
}

/// The session window that the pre-market switch selects.
pub open spec fn window_of(show_pre_market: bool) -> SessionWindow {
    if show_pre_market {
        SessionWindow::Extended
    } else {
        SessionWindow::Regular
    }
}

/// The header of a quote.
pub open spec fn header_of(data: StockData) -> HeaderView {
    HeaderView {
        trend: trend_of(data.change_percent as int),
        change: change_of(data.price as int, data.previous_close as int) as i128,
        percent_magnitude: magnitude(data.change_percent as int) as u128,
        volume: volume_label_of(data.volume),
    }
}

/// Whether `view` is the projection of `state` at `now`.
pub open spec fn projects(view: ViewModel, state: AppModel, now: nat) -> bool {
    &&& view.mode == state.mode
    &&& view.options == state.options
    &&& view.error == state.error
    &&& view.countdown_secs == state.scheduler.countdown(now)
    &&& view.help_visible == (state.mode == InputMode::Browsing && state.options.show_help
        && view.chart is Some)
    &&& match state.data {
        Some(data) => {
            &&& view.header == Some(header_of(data))
            &&& if data.prices@.len() > 0 {
                &&& view.chart matches Some(chart)
                &&& chart.shows(
                    timed_series(data.timestamps@, data.prices@),
                    window_of(state.options.show_pre_market),
                    mode_of(state.options.price_view),
                    data.previous_close,
                )
            } else {
                view.chart is None
            }
        },
        None => view.header is None && view.chart is None,
    }
}

/// Computes the size of a percent change without its sign.
pub fn percent_magnitude(change_percent: i128) -> (size: u128)
    ensures
        size == magnitude(change_percent as int),
{
    if change_percent >= 0 {
        change_percent as u128
    } else {
        (-(change_percent + 1)) as u128 + 1
    }
}

/// Assembles the header of a quote.
pub fn quote_header(data: &StockData) -> (header: HeaderView)
    ensures
        header == header_of(*data),
{
    HeaderView {
        trend: trend(data.change_percent),
        change: change(data.price, data.previous_close),
        percent_magnitude: percent_magnitude(data.change_percent),
        volume: volume_label(data.volume),
    }
}

/// Assembles the chart of a quote as the display switches ask for it, or
/// nothing where the quote has no prices.
pub fn quote_chart(data: &StockData, show_pre_market: bool, price_view: bool) -> (chart: Option<
    ChartSeries,
>)
    ensures
        data.prices@.len() == 0 ==> chart is None,
        data.prices@.len() > 0 ==> (chart matches Some(c) && c.shows(
            timed_series(data.timestamps@, data.prices@),
            window_of(show_pre_market),
            mode_of(price_view),
            data.previous_close,
        )),
        chart matches Some(c) ==> {
            &&& c.range.low < baseline_of(mode_of(price_view), data.previous_close) < c.range.high
            &&& forall|i: int|
                0 <= i < c.points@.len() ==> c.range.low < (#[trigger] c.points@[i]).value
                    < c.range.high
        },
{
    if data.prices.len() == 0 {
        return None;
    }
    let points = timed_prices(&data.timestamps, &data.prices);
    let window = SessionWindow::for_pre_market(show_pre_market);
    let mode = if price_view {
        ValueMode::Price
    } else {
        ValueMode::Percent
    };
    Some(build_chart(&points, window, mode, data.previous_close))
}

impl App {
    /// Assembles what the renderer draws at `now`.
    pub fn view_model(&self, now: u64) -> (view: ViewModel)
        ensures
            projects(view, self@, now as nat),
    {
        let options = self.options();
        let (header, chart) = match self.data() {
            Some(data) => (
                Some(quote_header(data)),
                quote_chart(data, options.show_pre_market, options.price_view),
            ),
            None => (None, None),
        };
        let mode = self.mode();
        let help_visible = match mode {
            InputMode::Browsing => options.show_help && chart.is_some(),
            _ => false,
        };
        ViewModel {
            mode,
            options,
            error: self.error(),
            countdown_secs: self.seconds_until_refresh(now),
            header,
            chart,
            help_visible,
        }
    }
}

} // verus!
