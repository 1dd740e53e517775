//! Verified core of a daily portfolio report job.
//!
//! The library holds everything the job decides or computes: parsing the
//! symbol-map text, deriving market-data lookup tickers, classifying API
//! responses, accumulating per-ticker successes and failures, and rendering
//! the HTML report.  The surrounding binary performs the network and file
//! I/O and hands this library plain values.

pub mod fixed;
pub mod mailer;
pub mod market;
pub mod pie;
pub mod report;
pub mod symbols;
pub mod text;

pub use fixed::Fixed2;
