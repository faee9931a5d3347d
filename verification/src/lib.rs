//! Per-symbol aggregation of a market-data event stream.
//!
//! Events enter through a bounded queue, one worker applies them in arrival
//! order to a store of per-symbol aggregates, and readers query the store
//! while ingestion goes on.  Prices and quantities are unsigned fixed-point
//! integers; the unit is the caller's choice.

pub mod message;
pub mod aggregate;
pub mod store;
pub mod channel;
pub mod clock;
pub mod processor;
pub mod laws;
