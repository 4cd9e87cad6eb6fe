//! Custom LSP notification method names.
use vstd::prelude::*;

verus! {

/// Periodic profiling progress update during active sessions.
pub const PROFILER_PROGRESS: &'static str = "basilisk/profiler/progress";

/// Memory timeline data from auto-snapshot mode.
pub const MEMORY_TIMELINE: &'static str = "basilisk/memory/timeline";

} // verus!
