//! Slash command names offered in the Zed assistant panel.
use vstd::prelude::*;

verus! {

/// Start CPU profiling (optionally targeting a specific PID).
pub const PROFILE: &'static str = "profile";

/// Stop CPU profiling and return results.
pub const PROFSTOP: &'static str = "profstop";

/// Take a profiling snapshot without stopping.
pub const PROFSNAPSHOT: &'static str = "profsnapshot";

/// Start memory leak tracking.
pub const MEMLEAK: &'static str = "memleak";

/// Stop memory tracking and return leak report.
pub const MEMSTOP: &'static str = "memstop";

/// Query reference/retention graph for a type.
pub const MEMREFS: &'static str = "memrefs";

/// Show workspace module tree.
pub const MODULES: &'static str = "modules";

/// Show symbols in a module.
pub const SYMBOLS: &'static str = "symbols";

/// Show type health statistics.
pub const HEALTH: &'static str = "health";

/// Show Basilisk server info.
pub const BASILISK: &'static str = "basilisk";

/// Discover tests in the workspace.
pub const TESTS: &'static str = "tests";

/// Run tests by node ID or file.
pub const RUNTESTS: &'static str = "runtests";

/// Run tests in the current file.
pub const TESTFILE: &'static str = "testfile";

} // verus!
