//! Diagnostic codes of the memory profiler.
use vstd::prelude::*;

verus! {

/// Memory allocation hotspot: high allocation volume at a source line.
pub const ALLOC: &'static str = "BSK-MEM-ALLOC";

/// Memory growth: allocation size increased between snapshots.
pub const GROWTH: &'static str = "BSK-MEM-GROWTH";

/// Suspected memory leak: consistent growth across multiple snapshots.
pub const LEAK: &'static str = "BSK-MEM-LEAK";

/// Reference cycle detected: objects with `__del__` in a cycle (uncollectable).
pub const CYCLE: &'static str = "BSK-MEM-CYCLE";

} // verus!
