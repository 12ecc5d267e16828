//! The chart of one session: the points of the cleaned series that fall
//! inside the active window, each as a percent change or as a raw price, and
//! the range of the value axis.

use crate::price::percent_change;
use crate::price::percent_change_of;
use crate::price::PERCENT_LIMIT;
use crate::quote::TimedPrice;
use crate::session::SessionWindow;
use vstd::prelude::*;

verus! {

/// What the value axis of the chart shows.
#[derive(Debug, Clone, Copy, PartialEq, Eq, Structural)]
pub enum ValueMode {
    /// Percent change from the previous close, in percent-change units.
    Percent,
    /// The raw price, in price units.
    Price,
}

/// One point of the chart.
#[derive(Debug, Clone, Copy, PartialEq, Eq, Structural)]
pub struct ChartPoint {
    /// Minutes since local midnight.
    pub minute: u32,
    /// Percent change or price, as the mode says.
    pub value: i128,
}

/// The range of the value axis, with its middle for the centre label.
#[derive(Debug, Clone, Copy, PartialEq, Eq, Structural)]
pub struct ValueRange {
    pub low: i128,
    pub middle: i128,
    pub high: i128,
}

/// The padding of the value axis where every value is the same.
pub const FLAT_PADDING: i128 = 500;

/// The value axis is padded by one part in this many of its span, rounded up
/// to a whole unit.
pub const PADDING_DIVISOR: i128 = 20;

/// The value at which a point with the given price is drawn.
pub open spec fn value_of(mode: ValueMode, price: i64, previous_close: i64) -> int {
    match mode {
        ValueMode::Percent => percent_change_of(price as int, previous_close as int),
        ValueMode::Price => price as int,
    }
}

/// The value of the reference line: no change in percent mode, the previous
/// close in price mode.
pub open spec fn baseline_of(mode: ValueMode, previous_close: i64) -> int {
    match mode {
        ValueMode::Percent => 0,
        ValueMode::Price => previous_close as int,
    }
}

/// The chart point of a series point that lies inside the window.
pub open spec fn point_of(point: TimedPrice, mode: ValueMode, previous_close: i64) -> ChartPoint {
    ChartPoint {
        minute: point.minute->0,
        value: value_of(mode, point.price, previous_close) as i128,
    }
}

/// The points of the chart: those series points whose local minute lies
/// inside the window, in the order of the series.
pub open spec fn charted(
    points: Seq<TimedPrice>,
    window: SessionWindow,
    mode: ValueMode,
    previous_close: i64,
) -> Seq<ChartPoint> {
    points.filter(|p: TimedPrice| window.includes(p.minute)).map_values(
        |p: TimedPrice| point_of(p, mode, previous_close),
    )
}

/// Whether `low` is the least of the baseline and all point values.
pub open spec fn is_lowest(low: int, points: Seq<ChartPoint>, baseline: int) -> bool {
    &&& low <= baseline
    &&& forall|i: int| 0 <= i < points.len() ==> low <= (#[trigger] points[i]).value
    &&& (low == baseline || exists|i: int| 0 <= i < points.len() && low == (#[trigger] points[i]).value)
}

/// Whether `high` is the greatest of the baseline and all point values.
pub open spec fn is_highest(high: int, points: Seq<ChartPoint>, baseline: int) -> bool {
    &&& high >= baseline
    &&& forall|i: int| 0 <= i < points.len() ==> high >= (#[trigger] points[i]).value
    &&& (high == baseline || exists|i: int| 0 <= i < points.len() && high == (#[trigger] points[i]).value)
}

/// The padding added below the lowest and above the highest value: a
/// twentieth of their distance, rounded up to a whole unit, or a fixed amount
/// where they coincide. It is never zero.
pub open spec fn padding_of(low: int, high: int) -> int {
    if high == low {
        FLAT_PADDING as int
    } else {
        (high - low + (PADDING_DIVISOR - 1)) / (PADDING_DIVISOR as int)
    }
}

/// Whether `range` is the padded value axis of the given points around the
/// baseline.
pub open spec fn is_range_of(range: ValueRange, points: Seq<ChartPoint>, baseline: int) -> bool {
    exists|low: int, high: int|
        {
            &&& is_lowest(low, points, baseline)
            &&& is_highest(high, points, baseline)
            &&& range.low == low - padding_of(low, high)
            &&& range.high == high + padding_of(low, high)
            &&& range.middle == range.low + (range.high - range.low) / 2
        }
}

/// Whether a value lies in the range that prices and percent changes can
/// take. Values in this range leave room for the padding of the axis.
pub open spec fn within_limit(value: int) -> bool {
    -PERCENT_LIMIT <= value <= PERCENT_LIMIT
}

/// Computes the value at which a point with the given price is drawn.
pub fn point_value(mode: ValueMode, price: i64, previous_close: i64) -> (value: i128)
    ensures
        value == value_of(mode, price, previous_close),
        within_limit(value as int),
{
    match mode {
        ValueMode::Percent => percent_change(price, previous_close),
        ValueMode::Price => price as i128,
    }
}

/// Selects the points of the chart from the series.
pub fn chart_points(
    points: &Vec<TimedPrice>,
    window: SessionWindow,
    mode: ValueMode,
    previous_close: i64,
) -> (chart: Vec<ChartPoint>)
    ensures
        chart@ == charted(points@, window, mode, previous_close),
        forall|i: int| 0 <= i < chart@.len() ==> within_limit((#[trigger] chart@[i]).value as int),
{
    let ghost inside = |p: TimedPrice| window.includes(p.minute);
    let ghost draw = |p: TimedPrice| point_of(p, mode, previous_close);
    let mut chart: Vec<ChartPoint> = Vec::new();
    let mut i: usize = 0;
    proof {
        reveal(Seq::filter);
        assert(points@.take(0).filter(inside) =~= Seq::<TimedPrice>::empty());
    }
    while i < points.len()
        invariant
            i <= points@.len(),
            inside == |p: TimedPrice| window.includes(p.minute),
            draw == |p: TimedPrice| point_of(p, mode, previous_close),
            chart@ == points@.take(i as int).filter(inside).map_values(draw),
            forall|k: int|
                0 <= k < chart@.len() ==> within_limit((#[trigger] chart@[k]).value as int),
        decreases points@.len() - i,
    {
        let point = points[i];
        proof {
            assert(points@.take(i + 1) =~= points@.take(i as int).push(point));
            points@.take(i as int).lemma_filter_push(point, inside);
        }
        if window.contains(point.minute) {
            match point.minute {
                Some(minute) => {
                    let value = point_value(mode, point.price, previous_close);
                    chart.push(ChartPoint { minute, value });
                },
                None => {},
            }
        }
        i += 1;
    }
    proof {
        assert(points@.take(points@.len() as int) =~= points@);
    }
    chart
}

/// Computes the padded range of the value axis: it spans the baseline and
/// every point, with a margin of at least one unit on both sides, so that
/// neither the line nor the baseline touches the border.
pub fn value_range(points: &Vec<ChartPoint>, baseline: i128) -> (range: ValueRange)
    requires
        within_limit(baseline as int),
        forall|i: int| 0 <= i < points@.len() ==> within_limit((#[trigger] points@[i]).value as int),
    ensures
        is_range_of(range, points@, baseline as int),
        range.low < baseline < range.high,
        forall|i: int|
            0 <= i < points@.len() ==> range.low < (#[trigger] points@[i]).value < range.high,
        range.low < range.middle < range.high,
{
    let mut low: i128 = baseline;
    let mut high: i128 = baseline;
    let mut i: usize = 0;
    while i < points.len()
        invariant
            i <= points@.len(),
            within_limit(baseline as int),
            forall|k: int|
                0 <= k < points@.len() ==> within_limit((#[trigger] points@[k]).value as int),
            within_limit(low as int),
            within_limit(high as int),
            is_lowest(low as int, points@.take(i as int), baseline as int),
            is_highest(high as int, points@.take(i as int), baseline as int),
        decreases points@.len() - i,
    {
        let value = points[i].value;
        let ghost before = points@.take(i as int);
        let ghost after = points@.take(i + 1);
        proof {
            assert(after =~= before.push(points@[i as int]));
            if low != baseline {
                let w = choose|w: int| 0 <= w < before.len() && low == (#[trigger] before[w]).value;
                assert(after[w].value == low);
            }
            if high != baseline {
                let w = choose|w: int|
                    0 <= w < before.len() && high == (#[trigger] before[w]).value;
                assert(after[w].value == high);
            }
            assert(after[i as int].value == value);
        }
        if value < low {
            low = value;
        }
        if value > high {
            high = value;
        }
        i += 1;
    }
    proof {
        assert(points@.take(points@.len() as int) =~= points@);
    }
    let padding: i128 = if high == low {
        FLAT_PADDING
    } else {
        (high - low + (PADDING_DIVISOR - 1)) / PADDING_DIVISOR
    };
    let range_low: i128 = low - padding;
    let range_high: i128 = high + padding;
    let middle: i128 = range_low + (range_high - range_low) / 2;
    let range = ValueRange { low: range_low, middle, high: range_high };
    proof {
        // The lowest and the highest value found are the witnesses.
        assert(is_lowest(low as int, points@, baseline as int));
        assert(is_highest(high as int, points@, baseline as int));
        assert(range.low == low - padding_of(low as int, high as int));
        assert(range.high == high + padding_of(low as int, high as int));
    }
    range
}

/// The chart of one session, ready to be drawn.
#[derive(Debug, PartialEq, Eq)]
pub struct ChartSeries {
    pub window: SessionWindow,
    pub mode: ValueMode,
    pub points: Vec<ChartPoint>,
    pub range: ValueRange,
}

impl ChartSeries {
    /// Whether this chart shows the given series through the given window.
    pub open spec fn shows(
        self,
        points: Seq<TimedPrice>,
        window: SessionWindow,
        mode: ValueMode,
        previous_close: i64,
    ) -> bool {
        &&& self.window == window
        &&& self.mode == mode
        &&& self.points@ == charted(points, window, mode, previous_close)
        &&& is_range_of(self.range, self.points@, baseline_of(mode, previous_close))
    }
}

/// Builds the chart of a series: its points inside the window and the range
/// of its value axis.
pub fn build_chart(
    points: &Vec<TimedPrice>,
    window: SessionWindow,
    mode: ValueMode,
    previous_close: i64,
) -> (chart: ChartSeries)
    ensures
        chart.shows(points@, window, mode, previous_close),
        chart.range.low < baseline_of(mode, previous_close) < chart.range.high,
        forall|i: int|
            0 <= i < chart.points@.len() ==> chart.range.low < (#[trigger] chart.points@[i]).value
                < chart.range.high,
{
    let chart_points = chart_points(points, window, mode, previous_close);
    let baseline: i128 = match mode {
        ValueMode::Percent => 0,
        ValueMode::Price => previous_close as i128,
    };
    let range = value_range(&chart_points, baseline);
    ChartSeries { window, mode, points: chart_points, range }
}

/// Every point of a chart lies inside the window, and no point is there
/// that the series did not hold inside the window.
pub proof fn lemma_chart_inside_window(
    points: Seq<TimedPrice>,
    window: SessionWindow,
    mode: ValueMode,
    previous_close: i64,
)
    ensures
        charted(points, window, mode, previous_close).len() <= points.len(),
        forall|k: int|
            0 <= k < charted(points, window, mode, previous_close).len() ==> window.start() <= (
            #[trigger] charted(points, window, mode, previous_close)[k]).minute <= window.end(),
{
    let inside = |p: TimedPrice| window.includes(p.minute);
    let kept = points.filter(inside);
    points.lemma_filter_len(inside);
    assert forall|k: int| 0 <= k < kept.len() implies inside(#[trigger] kept[k]) by {
        points.lemma_filter_pred(inside, k);
    }
}

/// The value axis holds the baseline and every point strictly inside: the
/// lower bound lies below all of them and the upper bound above.
pub proof fn lemma_range_holds_values(range: ValueRange, points: Seq<ChartPoint>, baseline: int)
    requires
        is_range_of(range, points, baseline),
    ensures
        range.low < baseline < range.high,
        forall|i: int| 0 <= i < points.len() ==> range.low < (#[trigger] points[i]).value < range.high,
        range.low < range.middle < range.high,
{
    let (low, high) = choose|low: int, high: int|
        {
            &&& is_lowest(low, points, baseline)
            &&& is_highest(high, points, baseline)
            &&& range.low == low - padding_of(low, high)
            &&& range.high == high + padding_of(low, high)
            &&& range.middle == range.low + (range.high - range.low) / 2
        };
    lemma_padding_positive(low, high);
}

/// Between a lowest and a highest value the padding is at least one unit.
pub proof fn lemma_padding_positive(low: int, high: int)
    requires
        low <= high,
    ensures
        padding_of(low, high) >= 1,
{
}

/// The range of a value axis is determined by the points and the baseline.
pub proof fn lemma_range_unique(
    first: ValueRange,
    second: ValueRange,
    points: Seq<ChartPoint>,
    baseline: int,
)
    requires
        is_range_of(first, points, baseline),
        is_range_of(second, points, baseline),
    ensures
        first == second,
{
    let (low1, high1) = choose|low: int, high: int|
        {
            &&& is_lowest(low, points, baseline)
            &&& is_highest(high, points, baseline)
            &&& first.low == low - padding_of(low, high)
            &&& first.high == high + padding_of(low, high)
            &&& first.middle == first.low + (first.high - first.low) / 2
        };
    let (low2, high2) = choose|low: int, high: int|
        {
            &&& is_lowest(low, points, baseline)
            &&& is_highest(high, points, baseline)
            &&& second.low == low - padding_of(low, high)
            &&& second.high == high + padding_of(low, high)
            &&& second.middle == second.low + (second.high - second.low) / 2
        };
    assert(low1 == low2);
    assert(high1 == high2);
}

} // verus!
