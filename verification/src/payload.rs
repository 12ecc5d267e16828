//! The quote-and-series payload as the data provider delivers it, with every
//! number already converted to fixed point.

use vstd::prelude::*;

verus! {

/// Quote metadata of one instrument. Fields that the provider may leave out
/// are optional.
pub struct ChartMeta {
    pub currency: String,
    pub symbol: String,
    pub regular_market_price: i64,
    pub chart_previous_close: Option<i64>,
    pub regular_market_day_high: Option<i64>,
    pub regular_market_day_low: Option<i64>,
    pub regular_market_volume: Option<u64>,
    pub regular_market_open: Option<i64>,
}

/// One quote series: a closing price per timestamp, `None` where the provider
/// has no price.
pub struct ChartQuote {
    pub close: Option<Vec<Option<i64>>>,
}

/// The series attached to one result.
pub struct ChartIndicators {
    pub quote: Vec<ChartQuote>,
}

/// One result entry: metadata, timestamps in epoch seconds, and series.
pub struct ChartResult {
    pub meta: ChartMeta,
    pub timestamp: Option<Vec<i64>>,
    pub indicators: ChartIndicators,
}

/// The result envelope.
pub struct ChartContent {
    pub result: Vec<ChartResult>,
}

/// A complete response of the data provider.
pub struct YFResponse {
    pub chart: ChartContent,
}

impl ChartResult {
    /// The raw timestamps, empty where the provider sent none.
    pub open spec fn raw_timestamps(self) -> Seq<i64> {
        match self.timestamp {
            Some(timestamps) => timestamps@,
            None => Seq::empty(),
        }
    }

    /// The raw closing prices of the first series, empty where the provider
    /// sent no series or no closing prices.
    pub open spec fn raw_closes(self) -> Seq<Option<i64>> {
        if self.indicators.quote@.len() > 0 {
            match self.indicators.quote@[0].close {
                Some(closes) => closes@,
                None => Seq::empty(),
            }
        } else {
            Seq::empty()
        }
    }
}

} // verus!
