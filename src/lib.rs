use vstd::prelude::*;

pub mod error;
pub mod cache;
pub mod driver;
pub mod freshness;
pub mod present;
pub mod source;

verus! {

/// One speed-test sample.
#[derive(Clone, Copy, Debug, PartialEq, Eq, Structural)]
pub struct Measurement {
    pub download_speed_mbps: u32,
    pub latency_ms: u32,
}

} // verus!
