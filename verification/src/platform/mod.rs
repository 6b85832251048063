//! The data platform: stacks, releases and what they ask of a cluster.
pub mod cluster;
pub mod release;
pub mod stack;
