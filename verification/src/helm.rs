//! Helm charts, as far as manifests describe them.
use vstd::prelude::*;

verus! {

/// The repository that a chart is found in.
#[derive(Debug)]
pub struct HelmChartRepo {
    /// The name of the repository.
    pub name: String,
    /// Where the repository is.
    pub url: String,
}

/// A chart that is to be installed.
#[derive(Debug)]
pub struct HelmChart {
    /// The name of the release that the installation makes.
    pub release_name: String,
    /// The name of the chart.
    pub name: String,
    /// The repository of the chart.
    pub repo: HelmChartRepo,
    /// The version of the chart.
    pub version: String,
    /// The options that the chart is installed with.
    pub options: serde_yaml::Value,
}

/// Which chart, in which version and from which repository.
#[derive(Debug)]
pub struct ChartVersion<'s> {
    /// The name of the repository.
    pub repo_name: &'s String,
    /// The name of the chart.
    pub chart_name: &'s String,
    /// The version, where it matters.
    pub chart_version: Option<&'s String>,
}

/// Why Helm failed, in words.
#[derive(Debug)]
pub struct HelmError {
    /// What Helm reported.
    pub message: String,
}

} // verus!
