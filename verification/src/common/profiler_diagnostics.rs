//! Diagnostic codes of the CPU profiler.
use vstd::prelude::*;

verus! {

/// Hot line: above the configured CPU sample threshold.
pub const LINE: &'static str = "BSK-PROF-LINE";

/// Hot function: above the configured function threshold.
pub const FUNC: &'static str = "BSK-PROF-FUNC";

} // verus!
