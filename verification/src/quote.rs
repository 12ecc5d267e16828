//! From a raw payload to the display-ready quote: fields copied from the
//! metadata, the percent change derived, the series cleaned, and the opening
//! price inferred from the series where the provider left it out.

use crate::error::FetchError;
use crate::payload::ChartResult;
use crate::payload::YFResponse;
use crate::price::percent_change;
use crate::price::percent_change_of;
use crate::series::clean_series;
use crate::series::cleaned_prices;
use crate::series::cleaned_timestamps;
use crate::session::local_minute_of_day;
use crate::session::minute_of_day;
use crate::session::MINUTES_PER_DAY;
use crate::session::REGULAR_OPEN_MINUTE;
use vstd::prelude::*;

verus! {

/// A price together with the market-local minute of the day at which it was
/// recorded, where the calendar can place its timestamp.
#[derive(Debug, Clone, Copy, PartialEq, Eq, Structural)]
pub struct TimedPrice {
    pub minute: Option<u32>,
    pub price: i64,
}

/// The latest quote of an instrument and its cleaned intraday series.
#[derive(Debug, PartialEq, Eq)]
pub struct StockData {
    pub symbol: String,
    pub price: i64,
    pub previous_close: i64,
    pub change_percent: i128,
    pub open: i64,
    pub high: i64,
    pub low: i64,
    pub volume: u64,
    pub timestamps: Vec<i64>,
    pub prices: Vec<i64>,
    pub currency: String,
}

/// The cleaned series with each timestamp replaced by its local minute.
pub open spec fn timed_series(timestamps: Seq<i64>, prices: Seq<i64>) -> Seq<TimedPrice> {
    Seq::new(
        if timestamps.len() <= prices.len() {
            timestamps.len()
        } else {
            prices.len()
        },
        |i: int| TimedPrice { minute: minute_of_day(timestamps[i]), price: prices[i] },
    )
}

/// Whether a point was recorded at or after the regular open.
pub open spec fn at_or_after_open(point: TimedPrice) -> bool {
    point.minute matches Some(m) && m >= REGULAR_OPEN_MINUTE
}

/// Whether `i` is the position of the first point at or after the regular
/// open.
pub open spec fn is_first_regular(points: Seq<TimedPrice>, i: int) -> bool {
    &&& 0 <= i < points.len()
    &&& at_or_after_open(points[i])
    &&& forall|j: int| 0 <= j < i ==> !at_or_after_open(#[trigger] points[j])
}

/// The opening price shown for a quote. An upstream value other than zero is
/// kept. Otherwise it is the price of the first point at or after the regular
/// open, the price of the very first point where no point is that late, and
/// zero where the series is empty.
pub open spec fn inferred_open(upstream_open: i64, points: Seq<TimedPrice>) -> i64 {
    if upstream_open != 0 {
        upstream_open
    } else if exists|i: int| is_first_regular(points, i) {
        points[choose|i: int| is_first_regular(points, i)].price
    } else if points.len() > 0 {
        points[0].price
    } else {
        0
    }
}

/// The value of an optional number of the payload: zero where it is absent.
pub open spec fn or_zero(field: Option<i64>) -> i64 {
    match field {
        Some(value) => value,
        None => 0,
    }
}

impl StockData {
    /// The invariant of a quote: the percent change is the one derived from
    /// price and previous close, and the series is index-aligned.
    pub open spec fn wf(self) -> bool {
        &&& self.change_percent == percent_change_of(
            self.price as int,
            self.previous_close as int,
        )
        &&& self.timestamps@.len() == self.prices@.len()
    }

    /// Whether this quote is the display-ready form of a result entry.
    pub open spec fn reflects(self, result: ChartResult) -> bool {
        &&& self.symbol == result.meta.symbol
        &&& self.currency == result.meta.currency
        &&& self.price == result.meta.regular_market_price
        &&& self.previous_close == or_zero(result.meta.chart_previous_close)
        &&& self.high == or_zero(result.meta.regular_market_day_high)
        &&& self.low == or_zero(result.meta.regular_market_day_low)
        &&& self.volume == (match result.meta.regular_market_volume {
            Some(volume) => volume,
            None => 0,
        })
        &&& self.change_percent == percent_change_of(
            self.price as int,
            self.previous_close as int,
        )
        &&& self.timestamps@ == cleaned_timestamps(result.raw_timestamps(), result.raw_closes())
        &&& self.prices@ == cleaned_prices(result.raw_timestamps(), result.raw_closes())
        &&& self.open == inferred_open(
            or_zero(result.meta.regular_market_open),
            timed_series(self.timestamps@, self.prices@),
        )
    }
}

impl Default for StockData {
    /// The quote before anything is known: no symbol, no prices, all numbers
    /// zero, and US dollars as the currency.
    fn default() -> (data: StockData)
        ensures
            data.symbol@.len() == 0,
            data.currency@ == "USD"@,
            data.price == 0,
            data.previous_close == 0,
            data.change_percent == 0,
            data.open == 0,
            data.high == 0,
            data.low == 0,
            data.volume == 0,
            data.timestamps@.len() == 0,
            data.prices@.len() == 0,
            data.wf(),
    {
        StockData {
            symbol: String::new(),
            price: 0,
            previous_close: 0,
            change_percent: 0,
            open: 0,
            high: 0,
            low: 0,
            volume: 0,
            timestamps: Vec::new(),
            prices: Vec::new(),
            currency: "USD".to_owned(),
        }
    }
}

impl Clone for StockData {
    fn clone(&self) -> (copy: StockData)
        ensures
            copy.symbol == self.symbol,
            copy.currency == self.currency,
            copy.price == self.price,
            copy.previous_close == self.previous_close,
            copy.change_percent == self.change_percent,
            copy.open == self.open,
            copy.high == self.high,
            copy.low == self.low,
            copy.volume == self.volume,
            copy.timestamps@ == self.timestamps@,
            copy.prices@ == self.prices@,
    {
        StockData {
            symbol: self.symbol.clone(),
            price: self.price,
            previous_close: self.previous_close,
            change_percent: self.change_percent,
            open: self.open,
            high: self.high,
            low: self.low,
            volume: self.volume,
            timestamps: self.timestamps.clone(),
            prices: self.prices.clone(),
            currency: self.currency.clone(),
        }
    }
}

/// Pairs every price of a cleaned series with the local minute of its
/// timestamp.
pub fn timed_prices(timestamps: &Vec<i64>, prices: &Vec<i64>) -> (points: Vec<TimedPrice>)
    ensures
        points@ == timed_series(timestamps@, prices@),
        forall|i: int|
            0 <= i < points@.len() ==> ((#[trigger] points@[i]).minute matches Some(m) ==> m
                < MINUTES_PER_DAY),
{
    let n: usize = if timestamps.len() <= prices.len() {
        timestamps.len()
    } else {
        prices.len()
    };
    let mut points: Vec<TimedPrice> = Vec::new();
    let mut i: usize = 0;
    while i < n
        invariant
            i <= n,
            n <= timestamps@.len(),
            n <= prices@.len(),
            points@.len() == i,
            forall|k: int|
                0 <= k < i ==> #[trigger] points@[k] == (TimedPrice {
                    minute: minute_of_day(timestamps@[k]),
                    price: prices@[k],
                }),
            forall|k: int|
                0 <= k < i ==> ((#[trigger] points@[k]).minute matches Some(m) ==> m
                    < MINUTES_PER_DAY),
        decreases n - i,
    {
        let minute = local_minute_of_day(timestamps[i]);
        points.push(TimedPrice { minute, price: prices[i] });
        i += 1;
    }
    points
}

/// Infers the opening price of a quote from its series.
pub fn infer_open(upstream_open: i64, points: &Vec<TimedPrice>) -> (open: i64)
    ensures
        open == inferred_open(upstream_open, points@),
{
    if upstream_open != 0 {
        return upstream_open;
    }
    let mut i: usize = 0;
    while i < points.len()
        invariant
            upstream_open == 0,
            i <= points@.len(),
            forall|j: int| 0 <= j < i ==> !at_or_after_open(#[trigger] points@[j]),
        decreases points@.len() - i,
    {
        let point = points[i];
        let late = match point.minute {
            Some(m) => m >= REGULAR_OPEN_MINUTE,
            None => false,
        };
        if late {
            proof {
                assert(is_first_regular(points@, i as int));
                lemma_first_regular_unique(
                    points@,
                    i as int,
                    choose|k: int| is_first_regular(points@, k),
                );
            }
            return point.price;
        }
        i += 1;
    }
    proof {
        assert forall|k: int| !is_first_regular(points@, k) by {
            if 0 <= k < points@.len() {
                assert(!at_or_after_open(points@[k]));
            }
        }
    }
    if points.len() > 0 {
        points[0].price
    } else {
        0
    }
}

/// At most one position is that of the first point at or after the regular
/// open.
pub proof fn lemma_first_regular_unique(points: Seq<TimedPrice>, i: int, k: int)
    requires
        is_first_regular(points, i),
        is_first_regular(points, k),
    ensures
        i == k,
{
    if i < k {
        assert(!at_or_after_open(points[i]));
    } else if k < i {
        assert(!at_or_after_open(points[k]));
    }
}

/// Where the upstream open is zero and some point was recorded at or after
/// the regular open, the inferred open is the price of the first such point.
pub proof fn lemma_open_is_first_regular_price(points: Seq<TimedPrice>, i: int)
    requires
        is_first_regular(points, i),
    ensures
        inferred_open(0, points) == points[i].price,
{
    lemma_first_regular_unique(points, i, choose|k: int| is_first_regular(points, k));
}

/// Where the upstream open is zero and no point was recorded at or after the
/// regular open, the inferred open is the price of the first point, and zero
/// for an empty series.
pub proof fn lemma_open_falls_back_to_first_price(points: Seq<TimedPrice>)
    requires
        forall|i: int| 0 <= i < points.len() ==> !at_or_after_open(#[trigger] points[i]),
    ensures
        points.len() > 0 ==> inferred_open(0, points) == points[0].price,
        points.len() == 0 ==> inferred_open(0, points) == 0,
{
    assert forall|k: int| !is_first_regular(points, k) by {
        if 0 <= k < points.len() {
            assert(!at_or_after_open(points[k]));
        }
    }
}

/// An upstream open other than zero is never replaced.
pub proof fn lemma_upstream_open_is_kept(upstream_open: i64, points: Seq<TimedPrice>)
    requires
        upstream_open != 0,
    ensures
        inferred_open(upstream_open, points) == upstream_open,
{
}

/// Turns one result entry into its display-ready quote. This never fails:
/// absent optional numbers count as zero, and an absent series is empty.
pub fn quote_of(result: &ChartResult) -> (data: StockData)
    ensures
        data.reflects(*result),
        data.wf(),
{
    let meta = &result.meta;
    let previous_close: i64 = match meta.chart_previous_close {
        Some(value) => value,
        None => 0,
    };
    let high: i64 = match meta.regular_market_day_high {
        Some(value) => value,
        None => 0,
    };
    let low: i64 = match meta.regular_market_day_low {
        Some(value) => value,
        None => 0,
    };
    let volume: u64 = match meta.regular_market_volume {
        Some(value) => value,
        None => 0,
    };
    let upstream_open: i64 = match meta.regular_market_open {
        Some(value) => value,
        None => 0,
    };
    let no_timestamps: Vec<i64> = Vec::new();
    let no_closes: Vec<Option<i64>> = Vec::new();
    let raw_timestamps: &Vec<i64> = match &result.timestamp {
        Some(timestamps) => timestamps,
        None => &no_timestamps,
    };
    let raw_closes: &Vec<Option<i64>> = if result.indicators.quote.len() > 0 {
        match &result.indicators.quote[0].close {
            Some(closes) => closes,
            None => &no_closes,
        }
    } else {
        &no_closes
    };
    let (timestamps, prices) = clean_series(raw_timestamps, raw_closes);
    let points = timed_prices(&timestamps, &prices);
    let open = infer_open(upstream_open, &points);
    StockData {
        symbol: meta.symbol.clone(),
        price: meta.regular_market_price,
        previous_close,
        change_percent: percent_change(meta.regular_market_price, previous_close),
        open,
        high,
        low,
        volume,
        timestamps,
        prices,
        currency: meta.currency.clone(),
    }
}

/// Turns a response into the display-ready quote of its first result entry.
/// The only failure is a response without any result entry.
pub fn transform(response: &YFResponse) -> (outcome: Result<StockData, FetchError>)
    ensures
        outcome is Err <==> response.chart.result@.len() == 0,
        outcome matches Err(error) ==> error == FetchError::MalformedResponse,
        outcome matches Ok(data) ==> data.reflects(response.chart.result@[0]) && data.wf(),
{
    if response.chart.result.len() == 0 {
        Err(FetchError::MalformedResponse)
    } else {
        Ok(quote_of(&response.chart.result[0]))
    }
}

} // verus!
