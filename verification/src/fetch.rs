//! What a fetch is asked for. The transport that carries the request out is
//! not part of this library.

use crate::positions::lemma_positions_step;
use crate::positions::positions_where;
use crate::scheduler::Viewport;
use crate::settings::ChartKind;
use crate::settings::IndicatorOption;
use crate::settings::Interval;
use crate::settings::Timeframe;
use vstd::prelude::*;

verus! {

/// The parameters of one fetch. A request keeps them, so that its result can
/// be held against the state that it comes back to.
#[derive(Debug, PartialEq, Eq)]
pub struct FetchRequest {
    pub symbol: String,
    pub width: u16,
    pub height: u16,
    /// Names of the enabled indicators.
    pub indicators: Vec<String>,
    pub use_24h: bool,
    pub price_view: bool,
    pub period: Timeframe,
    pub interval: Interval,
    pub chart_kind: ChartKind,
}

impl FetchRequest {
    /// The viewport that the request was made for.
    pub open spec fn size(self) -> Viewport {
        Viewport { width: self.width, height: self.height }
    }

    /// The viewport that the request was made for.
    pub fn viewport(&self) -> (size: Viewport)
        ensures
            size == self.size(),
    {
        Viewport { width: self.width, height: self.height }
    }
}

/// Number of indicators that have a switch.
pub open spec fn switched_len(indicators: Seq<IndicatorOption>, enabled: Seq<bool>) -> nat {
    if indicators.len() <= enabled.len() {
        indicators.len()
    } else {
        enabled.len()
    }
}

/// The names of the enabled indicators, in the order in which the indicators
/// are on offer.
pub open spec fn enabled_names(indicators: Seq<IndicatorOption>, enabled: Seq<bool>) -> Seq<
    Seq<char>,
> {
    positions_where(switched_len(indicators, enabled), |i: int| enabled[i]).map_values(
        |i: int| indicators[i].name@,
    )
}

/// The texts of a list of strings.
pub open spec fn texts_of(names: Seq<String>) -> Seq<Seq<char>> {
    names.map_values(|name: String| name@)
}

/// Collects the names of the enabled indicators.
pub fn collect_enabled(indicators: &Vec<IndicatorOption>, enabled: &Vec<bool>) -> (names: Vec<
    String,
>)
    ensures
        texts_of(names@) == enabled_names(indicators@, enabled@),
{
    let ghost on = |i: int| enabled@[i];
    let n: usize = if indicators.len() <= enabled.len() {
        indicators.len()
    } else {
        enabled.len()
    };
    let mut names: Vec<String> = Vec::new();
    let mut i: usize = 0;
    proof {
        lemma_positions_step(0, on);
    }
    while i < n
        invariant
            i <= n,
            n == switched_len(indicators@, enabled@),
            on == |k: int| enabled@[k],
            texts_of(names@) == positions_where(i as nat, on).map_values(
                |k: int| indicators@[k].name@,
            ),
        decreases n - i,
    {
        proof {
            lemma_positions_step(i as nat, on);
        }
        if enabled[i] {
            let ghost before = names@;
            let name = indicators[i].name.clone();
            names.push(name);
            proof {
                assert(texts_of(names@) =~= texts_of(before).push(name@));
            }
        }
        i += 1;
    }
    names
}

} // verus!
