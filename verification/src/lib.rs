//! Per-network-path state for a QUIC-style transport: an RFC 6298-style
//! round-trip-time filter, path-validation bookkeeping, pacing seed state,
//! and the anti-amplification gate applied to unvalidated paths.
//!
//! All durations and timestamps are plain nanosecond counts (`u64`), and the
//! remote endpoint is carried as plain address values, so every computation
//! here is verified arithmetic over integers.

pub mod rtt;
pub mod paths;

