//! Staged latency probing of an HTTPS host, and the decisions of the
//! collector that stores the resulting reports.
pub mod elapsed;
pub mod headers;
pub mod report;
pub mod probe;
pub mod ingest;

pub use report::Report;
