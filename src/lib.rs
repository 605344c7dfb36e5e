//! Keyword search over syndication feeds under a time budget.
//!
//! The library holds the logic: reading a feed document into items, testing
//! items against a query term, and the aggregation that gathers match records
//! from many sources until the sources are used up or the budget has run out.
//! Fetching the sources and serving requests are left to the caller, which
//! drives an `Aggregator` one source at a time.
pub mod aggregate;
pub mod config;
pub mod feed;
pub mod matcher;
pub mod query;
