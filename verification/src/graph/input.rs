//! Names of the input slots of the GI graph.

use vstd::prelude::*;

verus! {

/// The slot that carries the primary camera's view entity.
pub const VIEW_ENTITY: &'static str = "view_entity";

} // verus!
