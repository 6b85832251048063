//! What a Kubernetes client reports.
use vstd::prelude::*;

verus! {

/// Why Kubernetes could not be reached, or did not accept a manifest, in words.
#[derive(Debug)]
pub struct KubeClientError {
    /// What the client reported.
    pub message: String,
}

} // verus!
