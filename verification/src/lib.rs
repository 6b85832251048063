//! The decisions behind local clusters, stacks and file transfers.
//!
//! Everything here is plain computation: which command to run next, what its
//! answer means, which error ends a procedure and which text describes it.
//! Running commands, sending requests and touching files is left to the caller,
//! who performs the action a procedure asks for and hands the answer back.
pub mod command;
pub mod common;
pub mod constants;
pub mod engine;
pub mod helm;
pub mod kube;
pub mod outside;
pub mod params;
pub mod path;
pub mod platform;
pub mod text;
pub mod xfer;
