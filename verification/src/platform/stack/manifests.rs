//! The installation of the manifests of a stack or a demo.
use std::collections::HashMap;

use vstd::prelude::*;

use crate::common::ManifestSpec;
use crate::helm::{ChartVersion, HelmChart, HelmError};
use crate::kube::KubeClientError;
use crate::outside::{yaml_document, yaml_text};
use crate::params::{IntoParametersError, Parameter};
use crate::path::{PathOrUrl, PathOrUrlParseError};
use crate::platform::stack::spec::{DemoParameter, StackError, StackSpecV2};
use crate::xfer::FileTransferError;

verus! {

/// Where the installation of manifests stands: what is to be done next for the
/// manifest it has come to, or how it ended.
#[allow(inconsistent_fields)]
#[derive(Debug)]
pub enum ManifestPhase<'a> {
    /// The parameters that were given are to be resolved.
    ResolveParameters { given: &'a [String], valid: &'a [Parameter] },
    /// The location of the manifest is to be parsed.
    Locate,
    /// The description of the Helm chart is to be fetched.
    FetchChart { location: PathOrUrl },
    /// The repository of the Helm chart is to be added.
    AddRepo { chart: HelmChart },
    /// The Helm chart is to be installed with these values.
    InstallChart { chart: HelmChart, values: String },
    /// The YAML manifests are to be fetched.
    FetchManifests { location: PathOrUrl },
    /// A connection to Kubernetes is to be made.
    Connect { manifests: String },
    /// The YAML manifests are to be deployed.
    Deploy { manifests: String },
    /// There is nothing left to do.
    Finished { outcome: Result<(), StackError> },
}

/// What a [`ManifestPhase`] says, with the texts it makes as sequences.
#[allow(inconsistent_fields)]
pub enum ManifestPhaseView {
    /// See [`ManifestPhase::ResolveParameters`].
    ResolveParameters { given: Seq<String>, valid: Seq<Parameter> },
    /// See [`ManifestPhase::Locate`].
    Locate,
    /// See [`ManifestPhase::FetchChart`].
    FetchChart { location: PathOrUrl },
    /// See [`ManifestPhase::AddRepo`].
    AddRepo { chart: HelmChart },
    /// See [`ManifestPhase::InstallChart`].
    InstallChart { chart: HelmChart, values: Seq<char> },
    /// See [`ManifestPhase::FetchManifests`].
    FetchManifests { location: PathOrUrl },
    /// See [`ManifestPhase::Connect`].
    Connect { manifests: String },
    /// See [`ManifestPhase::Deploy`].
    Deploy { manifests: String },
    /// See [`ManifestPhase::Finished`].
    Finished { outcome: Result<(), StackError> },
}

impl<'a> View for ManifestPhase<'a> {
    type V = ManifestPhaseView;

    open spec fn view(&self) -> ManifestPhaseView {
        match *self {
            ManifestPhase::ResolveParameters { given, valid } => {
                ManifestPhaseView::ResolveParameters { given: given@, valid: valid@ }
            },
            ManifestPhase::Locate => ManifestPhaseView::Locate,
            ManifestPhase::FetchChart { location } => ManifestPhaseView::FetchChart { location },
            ManifestPhase::AddRepo { chart } => ManifestPhaseView::AddRepo { chart },
            ManifestPhase::InstallChart { chart, values } => ManifestPhaseView::InstallChart {
                chart,
                values: values@,
            },
            ManifestPhase::FetchManifests { location } => ManifestPhaseView::FetchManifests {
                location,
            },
            ManifestPhase::Connect { manifests } => ManifestPhaseView::Connect { manifests },
            ManifestPhase::Deploy { manifests } => ManifestPhaseView::Deploy { manifests },
            ManifestPhase::Finished { outcome } => ManifestPhaseView::Finished { outcome },
        }
    }
}

/// What the installation of manifests asks its caller to do.
#[allow(inconsistent_fields)]
#[derive(Debug)]
pub enum ManifestAction<'s> {
    /// Resolve the parameters that were given, as `NAME=VALUE`, against the valid
    /// ones.
    ResolveParameters { given: &'s [String], valid: &'s [Parameter] },
    /// Parse the location as a path or a URL.
    Locate { location: &'s String },
    /// Fetch the description of a Helm chart: transfer the file, render it as a
    /// template with the parameters, and read the result as YAML.
    FetchChart { location: &'s PathOrUrl, parameters: &'s HashMap<String, String> },
    /// Add the repository to Helm.
    AddRepo { name: &'s String, url: &'s String },
    /// Install a chart from its repository.
    InstallChart {
        operator_name: &'s String,
        release_name: &'s String,
        chart: ChartVersion<'s>,
        values: Option<&'s String>,
        namespace: &'s str,
        suppress_output: bool,
    },
    /// Fetch YAML manifests: transfer the file and render it as a template with
    /// the parameters.
    FetchManifests { location: &'s PathOrUrl, parameters: &'s HashMap<String, String> },
    /// Connect to Kubernetes.
    Connect,
    /// Deploy the manifests over the connection.
    Deploy { manifests: &'s String, namespace: &'s str },
}

/// What a [`ManifestAction`] asks for, with texts as sequences.
#[allow(inconsistent_fields)]
pub enum ManifestActionView {
    /// See [`ManifestAction::ResolveParameters`].
    ResolveParameters { given: Seq<String>, valid: Seq<Parameter> },
    /// See [`ManifestAction::Locate`].
    Locate { location: String },
    /// See [`ManifestAction::FetchChart`].
    FetchChart { location: PathOrUrl, parameters: HashMap<String, String> },
    /// See [`ManifestAction::AddRepo`].
    AddRepo { name: String, url: String },
    /// See [`ManifestAction::InstallChart`].
    InstallChart {
        operator_name: String,
        release_name: String,
        repo_name: String,
        chart_name: String,
        chart_version: Option<String>,
        values: Option<Seq<char>>,
        namespace: Seq<char>,
        suppress_output: bool,
    },
    /// See [`ManifestAction::FetchManifests`].
    FetchManifests { location: PathOrUrl, parameters: HashMap<String, String> },
    /// See [`ManifestAction::Connect`].
    Connect,
    /// See [`ManifestAction::Deploy`].
    Deploy { manifests: String, namespace: Seq<char> },
}

impl<'s> View for ManifestAction<'s> {
    type V = ManifestActionView;

    open spec fn view(&self) -> ManifestActionView {
        match *self {
            ManifestAction::ResolveParameters { given, valid } => {
                ManifestActionView::ResolveParameters { given: given@, valid: valid@ }
            },
            ManifestAction::Locate { location } => ManifestActionView::Locate {
                location: *location,
            },
            ManifestAction::FetchChart { location, parameters } => ManifestActionView::FetchChart {
                location: *location,
                parameters: *parameters,
            },
            ManifestAction::AddRepo { name, url } => ManifestActionView::AddRepo {
                name: *name,
                url: *url,
            },
            ManifestAction::InstallChart {
                operator_name,
                release_name,
                chart,
                values,
                namespace,
                suppress_output,
            } => ManifestActionView::InstallChart {
                operator_name: *operator_name,
                release_name: *release_name,
                repo_name: *chart.repo_name,
                chart_name: *chart.chart_name,
                chart_version: match chart.chart_version {
                    Some(version) => Some(*version),
                    None => None,
                },
                values: match values {
                    Some(text) => Some(text@),
                    None => None,
                },
                namespace: namespace@,
                suppress_output,
            },
            ManifestAction::FetchManifests { location, parameters } => {
                ManifestActionView::FetchManifests { location: *location, parameters: *parameters }
            },
            ManifestAction::Connect => ManifestActionView::Connect,
            ManifestAction::Deploy { manifests, namespace } => ManifestActionView::Deploy {
                manifests: *manifests,
                namespace: namespace@,
            },
        }
    }
}

/// How an action that was asked for went.
#[derive(Debug)]
pub enum ManifestEvent {
    /// The parameters were resolved.
    ParametersResolved(Result<HashMap<String, String>, IntoParametersError>),
    /// The location was parsed.
    Located(Result<PathOrUrl, PathOrUrlParseError>),
    /// The description of the Helm chart was fetched.
    ChartFetched(Result<HelmChart, FileTransferError>),
    /// The repository was added.
    RepoAdded(Result<(), HelmError>),
    /// The Helm chart was installed.
    ChartInstalled(Result<(), HelmError>),
    /// The YAML manifests were fetched.
    ManifestsFetched(Result<String, FileTransferError>),
    /// The connection to Kubernetes was made.
    Connected(Result<(), KubeClientError>),
    /// The YAML manifests were deployed.
    Deployed(Result<(), KubeClientError>),
}

/// The installation of manifests, one after another and step by step.
///
/// [`ManifestInstallation::action`] says what to do next, and
/// [`ManifestInstallation::handle`] takes the answer.
#[derive(Debug)]
pub struct ManifestInstallation<'a> {
    manifests: &'a Vec<ManifestSpec>,
    product_namespace: &'a str,
    parameters: HashMap<String, String>,
    index: usize,
    phase: ManifestPhase<'a>,
}

/// The state of a [`ManifestInstallation`].
pub struct ManifestInstallationView {
    /// The manifests that are to be installed.
    pub manifests: Seq<ManifestSpec>,
    /// The namespace that they are installed in.
    pub product_namespace: Seq<char>,
    /// The parameters that they are adapted with, once these are resolved.
    pub parameters: HashMap<String, String>,
    /// How many of the manifests are installed.
    pub index: int,
    /// Where the installation of the next one stands.
    pub phase: ManifestPhaseView,
}

impl<'a> View for ManifestInstallation<'a> {
    type V = ManifestInstallationView;

    closed spec fn view(&self) -> ManifestInstallationView {
        ManifestInstallationView {
            manifests: self.manifests@,
            product_namespace: self.product_namespace@,
            parameters: self.parameters,
            index: self.index as int,
            phase: self.phase@,
        }
    }
}

impl ManifestInstallationView {
    /// The manifest that is being installed is in range, and the phase is one
    /// that its kind goes through. All manifests are installed when the
    /// installation has ended well, and none is before the parameters are known.
    pub open spec fn well_formed(self) -> bool {
        let current = self.manifests[self.index];
        &&& 0 <= self.index <= self.manifests.len()
        &&& match self.phase {
            ManifestPhaseView::ResolveParameters { .. } => self.index == 0,
            ManifestPhaseView::Locate => self.index < self.manifests.len(),
            ManifestPhaseView::FetchChart { .. } => self.index < self.manifests.len()
                && current is HelmChart,
            ManifestPhaseView::AddRepo { .. } => self.index < self.manifests.len()
                && current is HelmChart,
            ManifestPhaseView::InstallChart { chart, values } => self.index < self.manifests.len()
                && current is HelmChart && yaml_document(chart.options) == Ok::<
                Seq<char>,
                serde_yaml::Error,
            >(values),
            ManifestPhaseView::FetchManifests { .. } => self.index < self.manifests.len()
                && current is PlainYaml,
            ManifestPhaseView::Connect { .. } => self.index < self.manifests.len()
                && current is PlainYaml,
            ManifestPhaseView::Deploy { .. } => self.index < self.manifests.len()
                && current is PlainYaml,
            ManifestPhaseView::Finished { outcome } => outcome is Ok ==> self.index
                == self.manifests.len(),
        }
    }

    /// Whether this is the start of an installation whose parameters are not
    /// resolved yet.
    pub open spec fn unresolved(
        self,
        manifests: Seq<ManifestSpec>,
        product_namespace: Seq<char>,
        given: Seq<String>,
        valid: Seq<Parameter>,
    ) -> bool {
        &&& self.manifests == manifests
        &&& self.product_namespace == product_namespace
        &&& self.index == 0
        &&& self.phase == ManifestPhaseView::ResolveParameters { given, valid }
    }

    /// The start of an installation with these parameters.
    pub open spec fn started(
        manifests: Seq<ManifestSpec>,
        product_namespace: Seq<char>,
        parameters: HashMap<String, String>,
    ) -> Self {
        ManifestInstallationView {
            manifests,
            product_namespace,
            parameters,
            index: 0,
            phase: ManifestPhaseView::Locate,
        }.at(0)
    }

    /// The installation with the first `index` manifests installed: it goes on
    /// with the next one, or has ended well if there is none.
    pub open spec fn at(self, index: int) -> Self {
        ManifestInstallationView {
            index,
            phase: if index < self.manifests.len() {
                ManifestPhaseView::Locate
            } else {
                ManifestPhaseView::Finished { outcome: Ok(()) }
            },
            ..self
        }
    }

    /// The installation in another phase of the same manifest.
    pub open spec fn in_phase(self, phase: ManifestPhaseView) -> Self {
        ManifestInstallationView { phase, ..self }
    }

    /// The installation, ended with `error`.
    pub open spec fn failed(self, error: StackError) -> Self {
        self.in_phase(ManifestPhaseView::Finished { outcome: Err(error) })
    }

    /// The state that follows when `event` answers what this one asks for. Any
    /// other event leaves the state as it is.
    pub open spec fn next(self, event: ManifestEvent) -> Self {
        match (self.phase, event) {
            (
                ManifestPhaseView::ResolveParameters { .. },
                ManifestEvent::ParametersResolved(resolved),
            ) => match resolved {
                Ok(parameters) => Self::started(self.manifests, self.product_namespace, parameters),
                Err(source) => self.failed(StackError::ParameterError { source }),
            },
            (ManifestPhaseView::Locate, ManifestEvent::Located(located)) => match located {
                Ok(location) => match self.manifests[self.index] {
                    ManifestSpec::HelmChart(_) => self.in_phase(
                        ManifestPhaseView::FetchChart { location },
                    ),
                    ManifestSpec::PlainYaml(_) => self.in_phase(
                        ManifestPhaseView::FetchManifests { location },
                    ),
                },
                Err(source) => self.failed(StackError::PathOrUrlParseError { source }),
            },
            (ManifestPhaseView::FetchChart { .. }, ManifestEvent::ChartFetched(fetched)) => {
                match fetched {
                    Ok(chart) => self.in_phase(ManifestPhaseView::AddRepo { chart }),
                    Err(source) => self.failed(StackError::TransferError { source }),
                }
            },
            (ManifestPhaseView::AddRepo { chart }, ManifestEvent::RepoAdded(added)) => {
                match added {
                    Ok(_) => match yaml_document(chart.options) {
                        Ok(values) => self.in_phase(
                            ManifestPhaseView::InstallChart { chart, values },
                        ),
                        Err(source) => self.failed(StackError::YamlError { source }),
                    },
                    Err(source) => self.failed(StackError::HelmError { source }),
                }
            },
            (
                ManifestPhaseView::InstallChart { .. },
                ManifestEvent::ChartInstalled(installed),
            ) => match installed {
                Ok(_) => self.at(self.index + 1),
                Err(source) => self.failed(StackError::HelmError { source }),
            },
            (
                ManifestPhaseView::FetchManifests { .. },
                ManifestEvent::ManifestsFetched(fetched),
            ) => match fetched {
                Ok(manifests) => self.in_phase(ManifestPhaseView::Connect { manifests }),
                Err(source) => self.failed(StackError::TransferError { source }),
            },
            (ManifestPhaseView::Connect { manifests }, ManifestEvent::Connected(connected)) => {
                match connected {
                    Ok(_) => self.in_phase(ManifestPhaseView::Deploy { manifests }),
                    Err(source) => self.failed(StackError::KubeError { source }),
                }
            },
            (ManifestPhaseView::Deploy { .. }, ManifestEvent::Deployed(deployed)) => {
                match deployed {
                    Ok(_) => self.at(self.index + 1),
                    Err(source) => self.failed(StackError::KubeError { source }),
                }
            },
            _ => self,
        }
    }

    /// The state after all of `events`, in order.
    pub open spec fn run(self, events: Seq<ManifestEvent>) -> Self
        decreases events.len(),
    {
        if events.len() == 0 {
            self
        } else {
            self.run(events.drop_last()).next(events.last())
        }
    }

    /// What this state asks for.
    pub open spec fn action(self) -> Option<ManifestActionView> {
        match self.phase {
            ManifestPhaseView::ResolveParameters { given, valid } => Some(
                ManifestActionView::ResolveParameters { given, valid },
            ),
            ManifestPhaseView::Locate => Some(
                ManifestActionView::Locate { location: self.manifests[self.index].location() },
            ),
            ManifestPhaseView::FetchChart { location } => Some(
                ManifestActionView::FetchChart { location, parameters: self.parameters },
            ),
            ManifestPhaseView::AddRepo { chart } => Some(
                ManifestActionView::AddRepo { name: chart.repo.name, url: chart.repo.url },
            ),
            ManifestPhaseView::InstallChart { chart, values } => Some(
                ManifestActionView::InstallChart {
                    operator_name: chart.release_name,
                    release_name: chart.release_name,
                    repo_name: chart.repo.name,
                    chart_name: chart.name,
                    chart_version: Some(chart.version),
                    values: Some(values),
                    namespace: self.product_namespace,
                    suppress_output: false,
                },
            ),
            ManifestPhaseView::FetchManifests { location } => Some(
                ManifestActionView::FetchManifests { location, parameters: self.parameters },
            ),
            ManifestPhaseView::Connect { .. } => Some(ManifestActionView::Connect),
            ManifestPhaseView::Deploy { manifests } => Some(
                ManifestActionView::Deploy { manifests, namespace: self.product_namespace },
            ),
            ManifestPhaseView::Finished { .. } => None,
        }
    }
}

impl StackSpecV2 {
    /// Starts to install the manifests of this stack, with the parameters given.
    pub fn install_stack_manifests<'a>(
        &'a self,
        parameters: &'a [String],
        product_namespace: &'a str,
    ) -> (installation: ManifestInstallation<'a>)
        ensures
            installation@.well_formed(),
            installation@.unresolved(
                self.manifests@,
                product_namespace@,
                parameters@,
                self.parameters@,
            ),
            installation@.manifests == self.manifests@,
            installation@.product_namespace == product_namespace@,
            installation@.index == 0,
            installation@.phase == (ManifestPhaseView::ResolveParameters {
                given: parameters@,
                valid: self.parameters@,
            }),
    {
        self.install_demo_manifests(
            &self.manifests,
            self.parameters.as_slice(),
            parameters,
            product_namespace,
        )
    }

    /// Starts to install the manifests of a demo of this stack, with the
    /// parameters given.
    pub fn install_demo_manifests<'a>(
        &self,
        manifests: &'a Vec<ManifestSpec>,
        valid_demo_parameters: &'a [DemoParameter],
        demo_parameters: &'a [String],
        product_namespace: &'a str,
    ) -> (installation: ManifestInstallation<'a>)
        ensures
            installation@.well_formed(),
            installation@.unresolved(
                manifests@,
                product_namespace@,
                demo_parameters@,
                valid_demo_parameters@,
            ),
            installation@.manifests == manifests@,
            installation@.product_namespace == product_namespace@,
            installation@.index == 0,
            installation@.phase == (ManifestPhaseView::ResolveParameters {
                given: demo_parameters@,
                valid: valid_demo_parameters@,
            }),
    {
        ManifestInstallation {
            manifests,
            product_namespace,
            parameters: HashMap::new(),
            index: 0,
            phase: ManifestPhase::ResolveParameters {
                given: demo_parameters,
                valid: valid_demo_parameters,
            },
        }
    }

    /// Starts to install a list of templated manifests inside a namespace.
    pub fn install_manifests<'a>(
        manifests: &'a Vec<ManifestSpec>,
        parameters: HashMap<String, String>,
        product_namespace: &'a str,
    ) -> (installation: ManifestInstallation<'a>)
        ensures
            installation@.well_formed(),
            installation@ == ManifestInstallationView::started(
                manifests@,
                product_namespace@,
                parameters,
            ),
            installation@.manifests == manifests@,
            installation@.product_namespace == product_namespace@,
            installation@.parameters == parameters,
            installation@.index == 0,
    {
        ManifestInstallation {
            manifests,
            product_namespace,
            parameters,
            index: 0,
            phase: ManifestInstallation::phase_at(manifests, 0),
        }
    }
}

impl<'a> ManifestInstallation<'a> {
    #[verifier::type_invariant]
    spec fn in_order(self) -> bool {
        self@.well_formed()
    }

    /// The phase in which the manifest at `index` is taken up.
    fn phase_at(manifests: &Vec<ManifestSpec>, index: usize) -> (phase: ManifestPhase<'a>)
        ensures
            phase@ == (if index < manifests@.len() {
                ManifestPhaseView::Locate
            } else {
                ManifestPhaseView::Finished { outcome: Ok(()) }
            }),
    {
        if index < manifests.len() {
            ManifestPhase::Locate
        } else {
            ManifestPhase::Finished { outcome: Ok(()) }
        }
    }

    /// What to do next; nothing once the installation has ended.
    pub fn action(&self) -> (action: Option<ManifestAction<'_>>)
        ensures
            self@.well_formed(),
            match action {
                Some(action) => self@.action() == Some(action@),
                None => self@.action() is None,
            },
            match action {
                Some(ManifestAction::ResolveParameters { given, valid }) => self@.phase == (
                ManifestPhaseView::ResolveParameters { given: given@, valid: valid@ }),
                Some(ManifestAction::Locate { location }) => {
                    &&& self@.phase is Locate
                    &&& match self@.manifests[self@.index] {
                        ManifestSpec::HelmChart(file) => *location == file,
                        ManifestSpec::PlainYaml(file) => *location == file,
                    }
                },
                Some(ManifestAction::FetchChart { location, parameters }) => {
                    &&& self@.phase == ManifestPhaseView::FetchChart { location: *location }
                    &&& *parameters == self@.parameters
                },
                Some(ManifestAction::AddRepo { name, url }) => {
                    &&& self@.phase matches ManifestPhaseView::AddRepo { chart }
                    &&& *name == chart.repo.name
                    &&& *url == chart.repo.url
                },
                Some(
                    ManifestAction::InstallChart {
                        operator_name,
                        release_name,
                        chart,
                        values,
                        namespace,
                        suppress_output,
                    },
                ) => {
                    &&& self@.phase matches ManifestPhaseView::InstallChart {
                        chart: described,
                        values: document,
                    }
                    &&& *operator_name == described.release_name
                    &&& *release_name == described.release_name
                    &&& *chart.repo_name == described.repo.name
                    &&& *chart.chart_name == described.name
                    &&& chart.chart_version matches Some(version)
                    &&& *version == described.version
                    &&& values matches Some(text)
                    &&& text@ == document
                    &&& namespace@ == self@.product_namespace
                    &&& !suppress_output
                },
                Some(ManifestAction::FetchManifests { location, parameters }) => {
                    &&& self@.phase == ManifestPhaseView::FetchManifests { location: *location }
                    &&& *parameters == self@.parameters
                },
                Some(ManifestAction::Connect) => self@.phase is Connect,
                Some(ManifestAction::Deploy { manifests, namespace }) => {
                    &&& self@.phase == ManifestPhaseView::Deploy { manifests: *manifests }
                    &&& namespace@ == self@.product_namespace
                },
                None => self@.phase is Finished,
            },
    {
        proof {
            use_type_invariant(self);
        }
        match &self.phase {
            ManifestPhase::ResolveParameters { given, valid } => Some(
                ManifestAction::ResolveParameters { given: *given, valid: *valid },
            ),
            ManifestPhase::Locate => {
                let location = match &self.manifests[self.index] {
                    ManifestSpec::HelmChart(location) => location,
                    ManifestSpec::PlainYaml(location) => location,
                };
                Some(ManifestAction::Locate { location })
            },
            ManifestPhase::FetchChart { location } => Some(
                ManifestAction::FetchChart { location, parameters: &self.parameters },
            ),
            ManifestPhase::AddRepo { chart } => Some(
                ManifestAction::AddRepo { name: &chart.repo.name, url: &chart.repo.url },
            ),
            ManifestPhase::InstallChart { chart, values } => Some(
                ManifestAction::InstallChart {
                    operator_name: &chart.release_name,
                    release_name: &chart.release_name,
                    chart: ChartVersion {
                        repo_name: &chart.repo.name,
                        chart_name: &chart.name,
                        chart_version: Some(&chart.version),
                    },
                    values: Some(values),
                    namespace: self.product_namespace,
                    suppress_output: false,
                },
            ),
            ManifestPhase::FetchManifests { location } => Some(
                ManifestAction::FetchManifests { location, parameters: &self.parameters },
            ),
            ManifestPhase::Connect { .. } => Some(ManifestAction::Connect),
            ManifestPhase::Deploy { manifests } => Some(
                ManifestAction::Deploy { manifests, namespace: self.product_namespace },
            ),
            ManifestPhase::Finished { .. } => None,
        }
    }

    /// Takes the answer to the action that was asked for. An event that is no
    /// answer to it changes nothing.
    pub fn handle(self, event: ManifestEvent) -> (next: Self)
        ensures
            self@.well_formed(),
            next@.well_formed(),
            next@ == self@.next(event),
    {
        proof {
            use_type_invariant(&self);
        }
        let ManifestInstallation { manifests, product_namespace, parameters, index, phase } = self;
        assert(index <= manifests.len());
        let mut parameters = parameters;
        let mut index: usize = index;
        let phase = match (phase, event) {
            (
                ManifestPhase::ResolveParameters { .. },
                ManifestEvent::ParametersResolved(resolved),
            ) => match resolved {
                Ok(known) => {
                    parameters = known;
                    ManifestInstallation::phase_at(manifests, index)
                },
                Err(source) => failed(StackError::ParameterError { source }),
            },
            (ManifestPhase::Locate, ManifestEvent::Located(located)) => match located {
                Ok(location) => match &manifests[index] {
                    ManifestSpec::HelmChart(_) => ManifestPhase::FetchChart { location },
                    ManifestSpec::PlainYaml(_) => ManifestPhase::FetchManifests { location },
                },
                Err(source) => failed(StackError::PathOrUrlParseError { source }),
            },
            (ManifestPhase::FetchChart { .. }, ManifestEvent::ChartFetched(fetched)) => {
                match fetched {
                    Ok(chart) => ManifestPhase::AddRepo { chart },
                    Err(source) => failed(StackError::TransferError { source }),
                }
            },
            (ManifestPhase::AddRepo { chart }, ManifestEvent::RepoAdded(added)) => match added {
                Ok(_) => {
                    let document = yaml_text(&chart.options);
                    ManifestPhase::with_values(chart, document)
                },
                Err(source) => failed(StackError::HelmError { source }),
            },
            (ManifestPhase::InstallChart { .. }, ManifestEvent::ChartInstalled(installed)) => {
                match installed {
                    Ok(_) => {
                        index = index + 1;
                        ManifestInstallation::phase_at(manifests, index)
                    },
                    Err(source) => failed(StackError::HelmError { source }),
                }
            },
            (ManifestPhase::FetchManifests { .. }, ManifestEvent::ManifestsFetched(fetched)) => {
                match fetched {
                    Ok(manifests) => ManifestPhase::Connect { manifests },
                    Err(source) => failed(StackError::TransferError { source }),
                }
            },
            (ManifestPhase::Connect { manifests }, ManifestEvent::Connected(connected)) => {
                match connected {
                    Ok(_) => ManifestPhase::Deploy { manifests },
                    Err(source) => failed(StackError::KubeError { source }),
                }
            },
            (ManifestPhase::Deploy { .. }, ManifestEvent::Deployed(deployed)) => match deployed {
                Ok(_) => {
                    index = index + 1;
                    ManifestInstallation::phase_at(manifests, index)
                },
                Err(source) => failed(StackError::KubeError { source }),
            },
            (phase, _) => phase,
        };
        ManifestInstallation { manifests, product_namespace, parameters, index, phase }
    }

    /// How the installation ended, or the installation itself while it has not.
    pub fn outcome(self) -> (outcome: Result<Result<(), StackError>, Self>)
        ensures
            match outcome {
                Ok(ended) => self@.phase == (ManifestPhaseView::Finished { outcome: ended }),
                Err(ongoing) => ongoing == self && !(self@.phase is Finished),
            },
    {
        proof {
            use_type_invariant(&self);
        }
        let ManifestInstallation { manifests, product_namespace, parameters, index, phase } = self;
        match phase {
            ManifestPhase::Finished { outcome } => Ok(outcome),
            phase => Err(
                ManifestInstallation { manifests, product_namespace, parameters, index, phase },
            ),
        }
    }
}

impl<'a> ManifestPhase<'a> {
    /// The phase that follows when the options of `chart` were made into
    /// `document`: the chart is installed with it, unless there is none.
    pub fn with_values(chart: HelmChart, document: Result<String, serde_yaml::Error>) -> (phase:
        Self)
        ensures
            phase == (match document {
                Ok(values) => ManifestPhase::InstallChart { chart, values },
                Err(source) => ManifestPhase::Finished {
                    outcome: Err(StackError::YamlError { source }),
                },
            }),
    {
        match document {
            Ok(values) => ManifestPhase::InstallChart { chart, values },
            Err(source) => failed(StackError::YamlError { source }),
        }
    }
}

/// The phase of an installation that ended with `error`.
fn failed<'a>(error: StackError) -> (phase: ManifestPhase<'a>)
    ensures
        phase == (ManifestPhase::Finished { outcome: Err(error) }),
{
    ManifestPhase::Finished { outcome: Err(error) }
}

} // verus!
