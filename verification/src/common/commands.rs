//! Custom LSP command names handled by the Basilisk server.
use vstd::prelude::*;

verus! {

/// Return the workspace module tree (packages, modules, symbols).
pub const WORKSPACE_MODULES: &'static str = "basilisk.workspaceModules";

/// Return type health statistics (coverage, errors, warnings per module).
pub const TYPE_HEALTH: &'static str = "basilisk.typeHealth";

/// Run all tests in the current file.
pub const RUN_TEST_FILE: &'static str = "basilisk.runTestFile";

/// Discover tests in the workspace or a specific file.
pub const DISCOVER_TESTS: &'static str = "basilisk.discoverTests";

/// Start CPU profiling a Python process.
pub const PROFILER_START: &'static str = "basilisk.profiler.start";

/// Stop CPU profiling and return results.
pub const PROFILER_STOP: &'static str = "basilisk.profiler.stop";

/// Take a profiling snapshot without stopping.
pub const PROFILER_SNAPSHOT: &'static str = "basilisk.profiler.snapshot";

/// List active profiling sessions.
pub const PROFILER_LIST: &'static str = "basilisk.profiler.list";

/// Start memory tracking in the active debug session.
pub const MEMORY_START: &'static str = "basilisk.memory.start";

/// Take a memory allocation snapshot.
pub const MEMORY_SNAPSHOT: &'static str = "basilisk.memory.snapshot";

/// Compare two memory snapshots to find leaks.
pub const MEMORY_DIFF: &'static str = "basilisk.memory.diff";

/// Walk the reference graph for a specific object type.
pub const MEMORY_REFERENCES: &'static str = "basilisk.memory.references";

/// Force garbage collection and report what was collected.
pub const MEMORY_GC_COLLECT: &'static str = "basilisk.memory.gcCollect";

} // verus!
