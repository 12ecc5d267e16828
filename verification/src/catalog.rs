//! The searchable reference table of tickers.

use crate::error::CatalogLoadError;
use crate::positions::lemma_positions_all;
use crate::positions::lemma_positions_ascending;
use crate::positions::lemma_positions_step;
use crate::positions::positions_where;
use crate::text::chars_of;
use crate::text::contains_chars;
use crate::text::contains_ignoring_case;
use crate::text::lowercase;
use crate::text::lowercase_chars;
use vstd::prelude::*;

verus! {

/// One row of the reference table.
#[derive(Debug, PartialEq, Eq)]
pub struct TickerRecord {
    pub symbol: String,
    pub name: String,
    /// The type of the instrument, such as a stock or a fund.
    pub kind: String,
}

impl Clone for TickerRecord {
    fn clone(&self) -> (copy: TickerRecord)
        ensures
            copy == *self,
    {
        TickerRecord {
            symbol: self.symbol.clone(),
            name: self.name.clone(),
            kind: self.kind.clone(),
        }
    }
}

/// Whether a record is a match for a query: every record for the empty
/// query, otherwise a record whose symbol or name contains the query when the
/// case of letters is ignored.
pub open spec fn record_matches(record: TickerRecord, query: Seq<char>) -> bool {
    ||| query.len() == 0
    ||| contains_ignoring_case(record.symbol@, query)
    ||| contains_ignoring_case(record.name@, query)
}

/// The positions of the records that match a query, in the order of the
/// table.
pub open spec fn matching_positions(records: Seq<TickerRecord>, query: Seq<char>) -> Seq<int> {
    positions_where(records.len(), |i: int| record_matches(records[i], query))
}

/// The records that match a query, in the order of the table.
pub open spec fn matching_records(records: Seq<TickerRecord>, query: Seq<char>) -> Seq<
    TickerRecord,
> {
    matching_positions(records, query).map_values(|i: int| records[i])
}

/// Whether a list of indices holds exactly the given positions.
pub open spec fn holds_positions(indices: Seq<usize>, positions: Seq<int>) -> bool {
    &&& indices.len() == positions.len()
    &&& forall|k: int| 0 <= k < indices.len() ==> indices[k] == positions[k]
}

/// The reference table, in the order in which it was loaded. It does not
/// change after it has been made.
#[derive(Debug)]
pub struct TickerCatalog {
    records: Vec<TickerRecord>,
}

impl View for TickerCatalog {
    type V = Seq<TickerRecord>;

    closed spec fn view(&self) -> Seq<TickerRecord> {
        self.records@
    }
}

impl TickerCatalog {
    /// The table with the given rows.
    pub fn new(records: Vec<TickerRecord>) -> (catalog: TickerCatalog)
        ensures
            catalog@ == records@,
    {
        TickerCatalog { records }
    }

    /// The table without rows.
    pub fn empty() -> (catalog: TickerCatalog)
        ensures
            catalog@ == Seq::<TickerRecord>::empty(),
    {
        TickerCatalog { records: Vec::new() }
    }

    /// The table that a loader produced: its rows, or no rows where loading
    /// failed. A failure to load is never fatal.
    pub fn from_load(loaded: Result<Vec<TickerRecord>, CatalogLoadError>) -> (catalog:
        TickerCatalog)
        ensures
            loaded matches Ok(records) ==> catalog@ == records@,
            loaded is Err ==> catalog@ == Seq::<TickerRecord>::empty(),
    {
        match loaded {
            Ok(records) => TickerCatalog { records },
            Err(_) => TickerCatalog { records: Vec::new() },
        }
    }

    /// Number of rows.
    pub fn len(&self) -> (n: usize)
        ensures
            n == self@.len(),
    {
        self.records.len()
    }

    /// The row at `index`, if there is one.
    pub fn get(&self, index: usize) -> (record: Option<&TickerRecord>)
        ensures
            index < self@.len() ==> record == Some(&self@[index as int]),
            index >= self@.len() ==> record is None,
    {
        if index < self.records.len() {
            Some(&self.records[index])
        } else {
            None
        }
    }

    /// The positions of the rows that match the query, in the order of the
    /// table. The empty query selects every row.
    pub fn filter_positions(&self, query: &str) -> (indices: Vec<usize>)
        ensures
            holds_positions(indices@, matching_positions(self@, query@)),
            query@.len() == 0 ==> indices@.len() == self@.len(),
            forall|k: int| 0 <= k < indices@.len() ==> #[trigger] indices@[k] < self@.len(),
    {
        let ghost wanted = |i: int| record_matches(self@[i], query@);
        let pattern = chars_of(query);
        let folded = lowercase_chars(query);
        let mut indices: Vec<usize> = Vec::new();
        let mut i: usize = 0;
        proof {
            lemma_positions_step(0, wanted);
        }
        while i < self.records.len()
            invariant
                i <= self@.len(),
                self@ == self.records@,
                pattern@ == query@,
                folded@ == lowercase(query@),
                wanted == |k: int| record_matches(self@[k], query@),
                holds_positions(indices@, positions_where(i as nat, wanted)),
                forall|k: int| 0 <= k < indices@.len() ==> #[trigger] indices@[k] < i,
            decreases self@.len() - i,
        {
            proof {
                lemma_positions_step(i as nat, wanted);
            }
            let record = &self.records[i];
            let hit = if pattern.len() == 0 {
                true
            } else {
                let symbol = lowercase_chars(record.symbol.as_str());
                if contains_chars(&symbol, &folded) {
                    true
                } else {
                    let name = lowercase_chars(record.name.as_str());
                    contains_chars(&name, &folded)
                }
            };
            assert(hit == wanted(i as int));
            if hit {
                indices.push(i);
            }
            i += 1;
        }
        proof {
            if query@.len() == 0 {
                lemma_positions_all(self@.len(), wanted);
            }
        }
        indices
    }

    /// The rows that match the query, in the order of the table. The empty
    /// query returns the whole table.
    pub fn filter(&self, query: &str) -> (found: Vec<TickerRecord>)
        ensures
            found@ == matching_records(self@, query@),
            query@.len() == 0 ==> found@ == self@,
    {
        let indices = self.filter_positions(query);
        let ghost positions = matching_positions(self@, query@);
        let mut found: Vec<TickerRecord> = Vec::new();
        let mut k: usize = 0;
        while k < indices.len()
            invariant
                k <= indices@.len(),
                self@ == self.records@,
                holds_positions(indices@, positions),
                forall|j: int| 0 <= j < indices@.len() ==> #[trigger] indices@[j] < self@.len(),
                found@.len() == k,
                forall|j: int| 0 <= j < k ==> #[trigger] found@[j] == self@[positions[j]],
            decreases indices@.len() - k,
        {
            found.push(self.records[indices[k]].clone());
            k += 1;
        }
        proof {
            assert(found@ =~= matching_records(self@, query@));
            if query@.len() == 0 {
                lemma_positions_all(self@.len(), |i: int| record_matches(self@[i], query@));
                assert(found@ =~= self@);
            }
        }
        found
    }
}

/// A search returns every row that matches the query, each once and in the
/// order of the table, and no other row.
pub proof fn lemma_filter_is_stable(records: Seq<TickerRecord>, query: Seq<char>)
    ensures
        ({
            let positions = matching_positions(records, query);
            let found = matching_records(records, query);
            &&& found.len() == positions.len()
            &&& forall|k: int|
                0 <= k < positions.len() ==> {
                    &&& 0 <= #[trigger] positions[k] < records.len()
                    &&& found[k] == records[positions[k]]
                    &&& record_matches(records[positions[k]], query)
                }
            &&& forall|j: int, k: int| 0 <= j < k < positions.len() ==> positions[j] < positions[k]
            &&& forall|i: int|
                0 <= i < records.len() && record_matches(#[trigger] records[i], query)
                    ==> positions.contains(i)
        }),
{
    let wanted = |i: int| record_matches(records[i], query);
    lemma_positions_ascending(records.len(), wanted);
    assert forall|i: int|
        0 <= i < records.len() && record_matches(
            #[trigger] records[i],
            query,
        ) implies matching_positions(records, query).contains(i) by {
        assert(wanted(i));
    }
}

/// The empty query returns the whole table in its own order.
pub proof fn lemma_empty_query_returns_all(records: Seq<TickerRecord>, query: Seq<char>)
    requires
        query.len() == 0,
    ensures
        matching_records(records, query) == records,
{
    lemma_positions_all(records.len(), |i: int| record_matches(records[i], query));
    assert(matching_records(records, query) =~= records);
}

} // verus!
