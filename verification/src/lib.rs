//! Exact aggregation of cache counters and windowed throughput tracking.
//!
//! Every derived quantity is kept as an exact integer fraction, so that the
//! contracts can say precisely what was computed; turning a fraction into a
//! displayed decimal is left to the caller.

pub mod cache;
pub mod ratio;
pub mod snapshot;
pub mod throughput;
