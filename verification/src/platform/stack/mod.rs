//! Stacks: what they consist of and how they are installed.
pub mod laws;
pub mod list_laws;
pub mod manifests;
pub mod spec;
pub mod step_laws;
