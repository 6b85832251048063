//! Names that are shared by several modules.
use vstd::prelude::*;

verus! {

/// The name of a local cluster that was not given one.
pub const DEFAULT_LOCAL_CLUSTER_NAME: &'static str = "stackable-data-platform";

} // verus!
