//! Parameters that manifests can be adapted with.
use vstd::prelude::*;

verus! {

/// A parameter that a stack or a demo offers.
#[derive(Debug, Clone)]
pub struct Parameter {
    /// The name of the parameter.
    pub name: String,
    /// What the parameter is for.
    pub description: String,
    /// The value of the parameter where none is given.
    pub default: String,
}

/// Why the parameters that were given cannot be used, in words.
#[derive(Debug)]
pub struct IntoParametersError {
    /// What is wrong with them.
    pub message: String,
}

} // verus!
