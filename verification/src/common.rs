//! What stacks and demos have in common.
use vstd::prelude::*;

verus! {

/// A manifest, by the path or URL it is found at.
#[derive(Debug, Clone)]
pub enum ManifestSpec {
    /// A description of a Helm chart that is to be installed.
    HelmChart(String),
    /// YAML manifests that are to be deployed as they are.
    PlainYaml(String),
}

impl ManifestSpec {
    /// Where the manifest is found.
    pub open spec fn location(self) -> String {
        match self {
            ManifestSpec::HelmChart(location) => location,
            ManifestSpec::PlainYaml(location) => location,
        }
    }
}

} // verus!
