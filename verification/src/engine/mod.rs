//! Engines that run a cluster on the local machine.
use vstd::prelude::*;

pub mod kind;
pub mod minikube;

verus! {

/// Why Docker is not available, in words.
#[derive(Debug)]
pub struct DockerError {
    /// What the check for a running Docker daemon reported.
    pub message: String,
}

} // verus!
