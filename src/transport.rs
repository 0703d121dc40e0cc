//! Settings of the QUIC listening endpoint.
use vstd::prelude::*;

verus! {

/// How often an idle connection is pinged to keep it open, in seconds.
pub const KEEP_ALIVE_INTERVAL_SECS: u64 = 2;

/// After this many milliseconds without activity a connection is reclaimed.
pub const IDLE_TIMEOUT_MS: u32 = 10_000;

/// Early data is accepted without bound.
pub const MAX_EARLY_DATA_SIZE: u32 = 0xffff_ffff;

} // verus!
