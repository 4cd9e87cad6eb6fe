//! Sampling presets the server accepts when profiling starts.
use vstd::prelude::*;

verus! {

/// Short burst: 10 seconds at 100 Hz, for quick hotspot checks.
pub const QUICK: &'static str = "quick";

/// Thorough analysis: 60 seconds at 200 Hz, higher-fidelity data.
pub const DETAILED: &'static str = "detailed";

/// No time limit at 50 Hz, for long-running servers and batch jobs.
pub const LONG_RUNNING: &'static str = "longRunning";

/// Every preset name the server parses.
pub const ALL: [&'static str; 3] = [QUICK, DETAILED, LONG_RUNNING];

} // verus!
