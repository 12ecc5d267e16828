//! Core of a terminal dashboard that tracks one financial instrument.
//!
//! The library holds the state machine of the application, the scheduler of
//! background refreshes, the searchable catalog of tickers, and the pipeline
//! from a raw quote-and-series payload to what the header and the chart show.
//! Rendering, the transport to the data provider and the terminal itself stay
//! with the program around it.
//!
//! All prices are fixed-point numbers: whole counts of ten-thousandths of a
//! unit of currency. Percent changes are whole counts of ten-thousandths of a
//! percent. Times are milliseconds on the clock of the event loop, timestamps
//! are seconds since the Unix epoch.

pub mod app;
pub mod catalog;
pub mod chart;
pub mod error;
pub mod fetch;
pub mod header;
pub mod input;
pub mod laws;
pub mod model;
pub mod payload;
pub mod positions;
pub mod price;
pub mod quote;
pub mod scheduler;
pub mod series;
pub mod session;
pub mod settings;
pub mod text;
pub mod view;
