//! Releases of the platform.
use vstd::prelude::*;

use crate::text::lists;

verus! {

/// The releases that can be installed, by name.
#[derive(Debug)]
pub struct ReleaseList {
    /// The names of the releases.
    pub names: Vec<String>,
}

impl ReleaseList {
    /// Whether the list has a release of this name.
    pub fn has(&self, name: &String) -> (found: bool)
        ensures
            found == self.names.deep_view().contains(name@),
    {
        lists(&self.names, name)
    }
}

/// Why a release could not be installed, in words.
#[derive(Debug)]
pub struct ReleaseInstallError {
    /// What the installation reported.
    pub message: String,
}

} // verus!
