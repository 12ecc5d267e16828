use stock_tui::catalog::{TickerCatalog, TickerRecord};
use stock_tui::error::CatalogLoadError;

fn record(symbol: &str, name: &str, kind: &str) -> TickerRecord {
    TickerRecord { symbol: symbol.to_string(), name: name.to_string(), kind: kind.to_string() }
}

fn records() -> Vec<TickerRecord> {
    vec![
        record("AAPL", "Apple Inc.", "stock"),
        record("MSFT", "Microsoft Corporation", "stock"),
        record("APD", "Air Products and Chemicals", "stock"),
        record("SNAP", "Snap Inc.", "stock"),
        record("GS", "Goldman Sachs Group", "stock"),
        record("COF", "Capital One Financial", "stock"),
        record("SPY", "SPDR S&P 500 ETF Trust", "fund"),
        record("GPS", "Gap Inc.", "stock"),
    ]
}

fn catalog() -> TickerCatalog {
    TickerCatalog::new(records())
}

#[test]
fn catalog_keeps_load_order() {
    let catalog = catalog();
    assert_eq!(catalog.len(), 8);
    assert_eq!(catalog.get(0), Some(&record("AAPL", "Apple Inc.", "stock")));
    assert_eq!(catalog.get(7), Some(&record("GPS", "Gap Inc.", "stock")));
    assert_eq!(catalog.get(8), None);
}

#[test]
fn empty_query_returns_the_full_catalog() {
    let catalog = catalog();
    assert_eq!(catalog.filter(""), records());
    assert_eq!(catalog.filter_positions(""), vec![0, 1, 2, 3, 4, 5, 6, 7]);
}

#[test]
fn query_ap_matches_symbol_or_name_in_catalog_order() {
    let catalog = catalog();
    assert_eq!(catalog.filter_positions("AP"), vec![0, 2, 3, 5, 7]);
    assert_eq!(
        catalog.filter("AP"),
        vec![
            record("AAPL", "Apple Inc.", "stock"),
            record("APD", "Air Products and Chemicals", "stock"),
            record("SNAP", "Snap Inc.", "stock"),
            record("COF", "Capital One Financial", "stock"),
            record("GPS", "Gap Inc.", "stock"),
        ]
    );
}

#[test]
fn query_case_does_not_matter() {
    let catalog = catalog();
    assert_eq!(catalog.filter_positions("ap"), catalog.filter_positions("AP"));
    assert_eq!(catalog.filter_positions("aP"), catalog.filter_positions("AP"));
    assert_eq!(catalog.filter_positions("msft"), vec![1]);
    assert_eq!(catalog.filter_positions("MICROSOFT"), vec![1]);
    assert_eq!(catalog.filter_positions("s&p"), vec![6]);
}

#[test]
fn query_matches_inside_a_word_but_not_across_fields() {
    let catalog = catalog();
    assert_eq!(catalog.filter_positions("oldman"), vec![4]);
    // "stock" is the type of most rows and matches none of them.
    assert!(catalog.filter_positions("stock").is_empty());
    // Symbol and name are searched one by one, never joined.
    assert!(catalog.filter_positions("AAPLApple").is_empty());
}

#[test]
fn query_without_match_returns_nothing() {
    let catalog = catalog();
    assert!(catalog.filter("zzz").is_empty());
    assert!(catalog.filter_positions("zzz").is_empty());
}

#[test]
fn empty_catalog_yields_no_results() {
    let catalog = TickerCatalog::empty();
    assert_eq!(catalog.len(), 0);
    assert!(catalog.filter("").is_empty());
    assert!(catalog.filter("AP").is_empty());
    assert_eq!(catalog.get(0), None);
}

#[test]
fn failed_load_degrades_to_an_empty_catalog() {
    let missing = TickerCatalog::from_load(Err(CatalogLoadError::Missing));
    assert_eq!(missing.len(), 0);
    let unreadable = TickerCatalog::from_load(Err(CatalogLoadError::Unreadable));
    assert_eq!(unreadable.len(), 0);
    let loaded = TickerCatalog::from_load(Ok(records()));
    assert_eq!(loaded.len(), 8);
    assert_eq!(loaded.filter(""), records());
}

#[test]
fn record_clone_is_equal() {
    let row = record("AAPL", "Apple Inc.", "stock");
    assert_eq!(row.clone(), row);
}
