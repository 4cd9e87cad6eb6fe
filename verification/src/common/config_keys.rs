//! Configuration key names shared between the editor integrations and the server.
use vstd::prelude::*;

verus! {

/// Root key for all Basilisk settings.
pub const ROOT: &'static str = "basilisk";

/// Inlay hints configuration section.
pub const INLAY_HINTS: &'static str = "inlayHints";

/// Show parameter name hints.
pub const PARAM_NAMES: &'static str = "parameterNames";

/// Show variable type hints.
pub const VAR_TYPES: &'static str = "variableTypes";

/// Ruff integration configuration section.
pub const RUFF: &'static str = "ruff";

/// Enable/disable Ruff integration.
pub const RUFF_ENABLED: &'static str = "enabled";

/// uv package manager configuration section.
pub const UV: &'static str = "uv";

/// Enable/disable uv integration.
pub const UV_ENABLED: &'static str = "enabled";

/// Path to the uv executable.
pub const UV_EXECUTABLE_PATH: &'static str = "executablePath";

/// Auto-sync when pyproject.toml changes.
pub const UV_AUTO_SYNC: &'static str = "autoSync";

/// Test explorer configuration section.
pub const TEST_EXPLORER: &'static str = "testExplorer";

/// Enable/disable test discovery and execution.
pub const TEST_EXPLORER_ENABLED: &'static str = "enabled";

/// Test framework: `pytest`, `unittest`, or `auto`.
pub const TEST_EXPLORER_FRAMEWORK: &'static str = "framework";

/// Path to the pytest executable.
pub const TEST_EXPLORER_PYTEST_PATH: &'static str = "pytestPath";

/// Additional test runner arguments.
pub const TEST_EXPLORER_ARGS: &'static str = "args";

/// Re-discover tests on file save.
pub const TEST_EXPLORER_AUTO_DISCOVER_ON_SAVE: &'static str = "autoDiscoverOnSave";

/// Use `uv run` when a uv project is detected.
pub const TEST_EXPLORER_USE_UV_RUN: &'static str = "useUvRun";

/// CPU profiler configuration section.
pub const PROFILER: &'static str = "profiler";

/// Enable CPU profiling features.
pub const PROFILER_ENABLED: &'static str = "enabled";

/// Samples per second (Hz).
pub const PROFILER_SAMPLE_RATE: &'static str = "sampleRate";

/// Include native (C extension) frames in profiles.
pub const PROFILER_INCLUDE_NATIVE: &'static str = "includeNative";

/// Per-line hotspot threshold as a fraction.
pub const PROFILER_LINE_THRESHOLD: &'static str = "lineThreshold";

/// Per-function hotspot threshold as a fraction.
pub const PROFILER_FUNC_THRESHOLD: &'static str = "funcThreshold";

/// Maximum number of hotspot diagnostics per file.
pub const PROFILER_MAX_DIAGNOSTICS: &'static str = "maxDiagnostics";

/// Automatically start profiling when a debug session launches.
pub const PROFILER_AUTO_ON_LAUNCH: &'static str = "autoOnLaunch";

/// Default export format: `speedscope`, `flamegraph`, or `summary`.
pub const PROFILER_DEFAULT_FORMAT: &'static str = "defaultFormat";

/// Memory profiler configuration section.
pub const MEMORY: &'static str = "memory";

/// Tracemalloc traceback depth for allocation sites.
pub const MEMORY_TRACEBACK_DEPTH: &'static str = "tracebackDepth";

/// Seconds between automatic memory snapshots (0 = disabled).
pub const MEMORY_AUTO_SNAPSHOT_INTERVAL: &'static str = "autoSnapshotInterval";

/// Maximum number of memory allocation diagnostic entries per file.
pub const MEMORY_MAX_DIAGNOSTICS: &'static str = "maxDiagnostics";

} // verus!
