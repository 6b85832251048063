//! What a stack asks of the cluster it runs on.
use vstd::prelude::*;

verus! {

/// The resources that a cluster must have to spare.
#[derive(Debug, Clone)]
pub struct ResourceRequests {
    /// The computing power, as a Kubernetes quantity.
    pub cpu: String,
    /// The memory, as a Kubernetes quantity.
    pub memory: String,
    /// The space for persistent volumes, as a Kubernetes quantity.
    pub pvc: String,
}

/// Why a cluster was not found to have the resources requested.
#[allow(inconsistent_fields)]
#[derive(Debug)]
pub enum ResourceRequestsError {
    /// The cluster has less than was requested, in the ways described.
    ValidationErrors { errors: Vec<String> },
    /// The resources of the cluster could not be found out.
    Undetermined { message: String },
}

} // verus!
