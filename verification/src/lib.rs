//! Health monitoring for a fleet of local blockchain light clients.
//!
//! The library holds the verified core of a periodic poller: per-record
//! online/offline state transitions, peer-count and block-height updates
//! parsed from JSON-RPC response bodies, and fleet-wide aggregation
//! (highest block, lag detection, anomaly grouping). Network I/O and log
//! output live outside the library; callers hand in the outcome of each
//! remote call and receive structured events to report.

use vstd::prelude::*;

pub mod fleet;
pub mod hex;
pub mod record;
pub mod rpc;

verus! {

/// Default base port: record `i` is monitored at `BASE_PORT + i`.
pub const BASE_PORT: u16 = 19000;

/// Default number of monitored records.
pub const FLEET_SIZE: usize = 100;

/// Default seconds slept between two sweeps.
pub const POLL_INTERVAL_SECS: u64 = 60;

/// A record is lagging when it is online and more than this many blocks
/// below the fleet's highest observed height.
pub const LAG_THRESHOLD: u64 = 30;

} // verus!
