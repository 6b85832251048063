//! What a cache of remote files answers.
use vstd::prelude::*;

verus! {

/// What a cache knows of a remote file.
#[derive(Debug)]
pub enum CacheStatus {
    /// The file is there, with this content.
    Hit(String),
    /// The file is there, but too old to be used.
    Expired,
    /// The file is not there.
    Miss,
}

/// Why a cache failed, in words.
#[derive(Debug)]
pub struct CacheError {
    /// What the cache reported.
    pub message: String,
}

} // verus!
