//! Names of the nodes of the GI graph.

use vstd::prelude::*;

verus! {

/// The pass that runs before the main pass and prepares what it samples.
pub const PREPASS: &'static str = "prepass";

/// The main rasterization pass.
pub const MAIN_PASS: &'static str = "main_pass";

} // verus!
