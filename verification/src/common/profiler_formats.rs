//! Export formats accepted when a profiling session stops.
use vstd::prelude::*;

verus! {

/// Speedscope JSON, the default; opens in speedscope.app.
pub const SPEEDSCOPE: &'static str = "speedscope";

/// Flamegraph SVG.
pub const FLAMEGRAPH: &'static str = "flamegraph";

/// Text summary only; no file is written.
pub const SUMMARY: &'static str = "summary";

} // verus!
