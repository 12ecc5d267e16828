//! Cleaning of the raw intraday series: entries without a price are dropped,
//! everything else passes through in the order in which it came.

use crate::positions::lemma_positions_ascending;
use crate::positions::lemma_positions_step;
use crate::positions::positions_where;
use vstd::prelude::*;

verus! {

/// Number of raw entries that have both a timestamp and a price slot.
pub open spec fn paired_len(timestamps: Seq<i64>, closes: Seq<Option<i64>>) -> nat {
    if timestamps.len() <= closes.len() {
        timestamps.len()
    } else {
        closes.len()
    }
}

/// Positions among the first `n` raw entries whose price is present, in
/// ascending order.
pub open spec fn kept_positions(closes: Seq<Option<i64>>, n: nat) -> Seq<int> {
    positions_where(n, |i: int| closes[i] is Some)
}

/// The timestamps found at the given positions.
pub open spec fn timestamps_at(timestamps: Seq<i64>, positions: Seq<int>) -> Seq<i64> {
    positions.map_values(|i: int| timestamps[i])
}

/// The prices found at the given positions.
pub open spec fn prices_at(closes: Seq<Option<i64>>, positions: Seq<int>) -> Seq<i64> {
    positions.map_values(|i: int| closes[i]->0)
}

/// Timestamps of the cleaned series.
pub open spec fn cleaned_timestamps(timestamps: Seq<i64>, closes: Seq<Option<i64>>) -> Seq<i64> {
    timestamps_at(timestamps, kept_positions(closes, paired_len(timestamps, closes)))
}

/// Prices of the cleaned series.
pub open spec fn cleaned_prices(timestamps: Seq<i64>, closes: Seq<Option<i64>>) -> Seq<i64> {
    prices_at(closes, kept_positions(closes, paired_len(timestamps, closes)))
}

/// Cleaning keeps the two sequences index-aligned and in the relative order
/// of the raw series: entry `k` of the cleaned series is the raw entry at the
/// `k`-th position whose price is present, and no such raw entry is left out.
pub proof fn lemma_cleaning_preserves_order(timestamps: Seq<i64>, closes: Seq<Option<i64>>)
    ensures
        cleaned_timestamps(timestamps, closes).len() == cleaned_prices(timestamps, closes).len(),
        ({
            let n = paired_len(timestamps, closes);
            let kept = kept_positions(closes, n);
            let clean_timestamps = cleaned_timestamps(timestamps, closes);
            let clean_prices = cleaned_prices(timestamps, closes);
            &&& kept.len() == clean_prices.len()
            &&& forall|k: int|
                0 <= k < kept.len() ==> {
                    &&& 0 <= #[trigger] kept[k] < n
                    &&& closes[kept[k]] == Some(clean_prices[k])
                    &&& timestamps[kept[k]] == clean_timestamps[k]
                }
            &&& forall|j: int, k: int| 0 <= j < k < kept.len() ==> kept[j] < kept[k]
            &&& forall|i: int| 0 <= i < n && closes[i] is Some ==> kept.contains(i)
        }),
{
    let n = paired_len(timestamps, closes);
    let present = |i: int| closes[i] is Some;
    lemma_positions_ascending(n, present);
    assert forall|i: int| 0 <= i < n && closes[i] is Some implies kept_positions(
        closes,
        n,
    ).contains(i) by {
        assert(present(i));
    }
}

/// Drops every raw entry without a price and returns the timestamps and
/// prices that remain, index-aligned.
pub fn clean_series(timestamps: &Vec<i64>, closes: &Vec<Option<i64>>) -> (cleaned: (
    Vec<i64>,
    Vec<i64>,
))
    ensures
        cleaned.0@ == cleaned_timestamps(timestamps@, closes@),
        cleaned.1@ == cleaned_prices(timestamps@, closes@),
        cleaned.0@.len() == cleaned.1@.len(),
{
    let n: usize = if timestamps.len() <= closes.len() {
        timestamps.len()
    } else {
        closes.len()
    };
    let mut clean_timestamps: Vec<i64> = Vec::new();
    let mut clean_prices: Vec<i64> = Vec::new();
    let mut i: usize = 0;
    proof {
        lemma_positions_step(0, |k: int| closes@[k] is Some);
    }
    while i < n
        invariant
            i <= n,
            n == paired_len(timestamps@, closes@),
            clean_timestamps@ == timestamps_at(timestamps@, kept_positions(closes@, i as nat)),
            clean_prices@ == prices_at(closes@, kept_positions(closes@, i as nat)),
        decreases n - i,
    {
        proof {
            lemma_positions_step(i as nat, |k: int| closes@[k] is Some);
        }
        match closes[i] {
            Some(price) => {
                clean_timestamps.push(timestamps[i]);
                clean_prices.push(price);
            },
            None => {},
        }
        i += 1;
    }
    (clean_timestamps, clean_prices)
}

} // verus!
