//! The description of a stack, and what it means for its installation.
use vstd::prelude::*;
use vstd::string::to_string_from_display_ensures;

use crate::common::ManifestSpec;
use crate::helm::HelmError;
use crate::kube::KubeClientError;
use crate::params::{IntoParametersError, Parameter};
use crate::path::PathOrUrlParseError;
use crate::platform::cluster::{ResourceRequests, ResourceRequestsError};
use crate::platform::release::{ReleaseInstallError, ReleaseList};
use crate::text::{join, joined, lists};
use crate::xfer::FileTransferError;

verus! {

/// A parameter of a stack.
pub type StackParameter = Parameter;

/// A parameter of a demo.
pub type DemoParameter = Parameter;

/// Why a stack, its manifests or those of a demo could not be installed.
#[allow(inconsistent_fields)]
#[derive(Debug)]
pub enum StackError {
    /// The parameters that were given cannot be used.
    ParameterError { source: IntoParametersError },
    /// The release list has no release for the stack.
    NoSuchStack,
    /// The release could not be installed.
    ReleaseInstallError { source: ReleaseInstallError },
    /// Helm failed.
    HelmError { source: HelmError },
    /// Kubernetes failed.
    KubeError { source: KubeClientError },
    /// The options of a Helm chart have no YAML form.
    YamlError { source: serde_yaml::Error },
    /// The resources of the cluster could not be found out.
    StackResourceRequestsError { source: ResourceRequestsError },
    /// The location of a manifest is neither a path nor a URL.
    PathOrUrlParseError { source: PathOrUrlParseError },
    /// A manifest could not be transferred.
    TransferError { source: FileTransferError },
    /// The stack does not support the namespace it was to be installed in.
    UnsupportedNamespace { requested: String, supported: Vec<String> },
}

impl StackError {
    /// Whether `text` describes the error to a user.
    ///
    /// An error that quotes another quotes the text of that one: for an error of
    /// `serde_yaml`, a text that its `Display` gives.
    pub open spec fn described_by(self, text: Seq<char>) -> bool {
        match self {
            StackError::ParameterError { source } => text == "parameter parse error: "@
                + source.message@,
            StackError::NoSuchStack => text == "no such stack"@,
            StackError::ReleaseInstallError { source } => text == "release install error: "@
                + source.message@,
            StackError::HelmError { source } => text == "Helm error: "@ + source.message@,
            StackError::KubeError { source } => text == "kube error: "@ + source.message@,
            StackError::YamlError { source } => exists|shown: String|
                #[trigger] to_string_from_display_ensures(&source, shown) && text == "yaml error: "@
                    + shown@,
            StackError::StackResourceRequestsError { .. } => text
                == "stack resource requests error"@,
            StackError::PathOrUrlParseError { .. } => text == "path or url parse error"@,
            StackError::TransferError { .. } => text == "transfer error"@,
            StackError::UnsupportedNamespace { requested, supported } => text
                == "cannot install stack in namespace '"@ + requested@ + "', only '"@ + joined(
                supported.deep_view(),
                ", "@,
            ) + "' supported"@,
        }
    }

    /// Describes the error to a user.
    pub fn message(&self) -> (text: String)
        ensures
            self.described_by(text@),
            match *self {
                StackError::ParameterError { source } => text@ == "parameter parse error: "@
                    + source.message@,
                StackError::NoSuchStack => text@ == "no such stack"@,
                StackError::ReleaseInstallError { source } => text@ == "release install error: "@
                    + source.message@,
                StackError::HelmError { source } => text@ == "Helm error: "@ + source.message@,
                StackError::KubeError { source } => text@ == "kube error: "@ + source.message@,
                StackError::YamlError { source } => exists|shown: String|
                    #[trigger] to_string_from_display_ensures(&source, shown) && text@
                        == "yaml error: "@ + shown@,
                StackError::StackResourceRequestsError { .. } => text@
                    == "stack resource requests error"@,
                StackError::PathOrUrlParseError { .. } => text@ == "path or url parse error"@,
                StackError::TransferError { .. } => text@ == "transfer error"@,
                StackError::UnsupportedNamespace { requested, supported } => text@
                    == "cannot install stack in namespace '"@ + requested@ + "', only '"@ + joined(
                    supported.deep_view(),
                    ", "@,
                ) + "' supported"@,
            },
    {
        match self {
            StackError::ParameterError { source } => {
                "parameter parse error: ".to_owned().concat(source.message.as_str())
            },
            StackError::NoSuchStack => "no such stack".to_owned(),
            StackError::ReleaseInstallError { source } => {
                "release install error: ".to_owned().concat(source.message.as_str())
            },
            StackError::HelmError { source } => {
                "Helm error: ".to_owned().concat(source.message.as_str())
            },
            StackError::KubeError { source } => {
                "kube error: ".to_owned().concat(source.message.as_str())
            },
            StackError::YamlError { source } => {
                let shown = source.to_string();
                "yaml error: ".to_owned().concat(shown.as_str())
            },
            StackError::StackResourceRequestsError { .. } => {
                "stack resource requests error".to_owned()
            },
            StackError::PathOrUrlParseError { .. } => "path or url parse error".to_owned(),
            StackError::TransferError { .. } => "transfer error".to_owned(),
            StackError::UnsupportedNamespace { requested, supported } => {
                let namespaces = join(supported, ", ");
                "cannot install stack in namespace '".to_owned().concat(requested.as_str()).concat(
                    "', only '",
                ).concat(namespaces.as_str()).concat("' supported")
            },
        }
    }
}

/// The description of a stack.
#[derive(Debug, Clone)]
pub struct StackSpecV2 {
    /// A short description of the stack.
    pub description: String,
    /// The release used by the stack, e.g. 23.4
    pub release: String,
    /// Supported namespaces this stack can run in. An empty list indicates that
    /// the stack can run in any namespace.
    pub supported_namespaces: Vec<String>,
    /// A variable number of operators
    pub operators: Vec<String>,
    /// A variable number of labels (tags)
    pub labels: Vec<String>,
    /// A variable number of Helm or YAML manifests
    pub manifests: Vec<ManifestSpec>,
    /// The resource requests the stack imposes on a Kubernetes cluster
    pub resource_requests: Option<ResourceRequests>,
    /// A variable number of supported parameters
    pub parameters: Vec<StackParameter>,
}

/// What is known of the prerequisites of a stack before the cluster is looked at.
#[derive(Debug)]
pub enum Prerequisites<'a> {
    /// The stack cannot be installed.
    Refused { error: StackError },
    /// The stack can be installed; the cluster does not matter.
    Met,
    /// It depends on whether the cluster has the resources that the subject, by
    /// this name, requests.
    ClusterSize { requests: &'a ResourceRequests, subject: &'static str },
}

/// A release that is to be installed for a stack.
#[derive(Debug)]
pub struct ReleaseInstallation<'a> {
    /// The name of the release.
    pub release: &'a String,
    /// The operators of the release that are to be installed.
    pub included: &'a Vec<String>,
    /// The operators of the release that are not to be installed.
    pub excluded: Vec<String>,
    /// The namespace that the operators are installed in.
    pub operator_namespace: &'a str,
}

/// The warnings that the validation of the cluster size gives rise to, or the
/// error that it ends the installation with.
pub open spec fn cluster_size_verdict(validation: Result<(), ResourceRequestsError>) -> Result<
    Seq<String>,
    StackError,
> {
    match validation {
        Ok(_) => Ok(seq![]),
        Err(ResourceRequestsError::ValidationErrors { errors }) => Ok(errors@),
        Err(source) => Err(StackError::StackResourceRequestsError { source }),
    }
}

impl StackSpecV2 {
    /// Whether the stack can run in `namespace`: in any, or in those it lists.
    pub open spec fn supports(&self, namespace: Seq<char>) -> bool {
        self.supported_namespaces@.len() == 0 || self.supported_namespaces.deep_view().contains(
            namespace,
        )
    }

    /// Checks the prerequisites to run this stack, as far as the stack itself
    /// decides them:
    ///
    /// - Does the stack support to be installed in the requested namespace?
    /// - Does it matter which resources the cluster has?
    pub fn check_prerequisites(&self, product_namespace: &str) -> (prerequisites: Prerequisites<'_>)
        ensures
            match prerequisites {
                Prerequisites::Refused { error } => {
                    &&& !self.supports(product_namespace@)
                    &&& error matches StackError::UnsupportedNamespace { requested, supported }
                    &&& requested@ == product_namespace@
                    &&& supported.deep_view() == self.supported_namespaces.deep_view()
                },
                Prerequisites::Met => {
                    &&& self.supports(product_namespace@)
                    &&& self.resource_requests is None
                },
                Prerequisites::ClusterSize { requests, subject } => {
                    &&& self.supports(product_namespace@)
                    &&& self.resource_requests == Some(*requests)
                    &&& subject@ == "stack"@
                },
            },
    {
        if !self.supports_namespace(product_namespace) {
            let supported = self.supported_namespaces.clone();
            assert(supported.deep_view() == self.supported_namespaces.deep_view());
            return Prerequisites::Refused {
                error: StackError::UnsupportedNamespace {
                    requested: product_namespace.to_owned(),
                    supported,
                },
            };
        }
        match &self.resource_requests {
            Some(requests) => Prerequisites::ClusterSize { requests, subject: "stack" },
            None => Prerequisites::Met,
        }
    }

    /// What the validation of the cluster size means for the stack: resources
    /// that are lacking are no more than warnings, which are returned, but a
    /// validation that could not be done is an error.
    pub fn judge_cluster_size(validation: Result<(), ResourceRequestsError>) -> (verdict: Result<
        Vec<String>,
        StackError,
    >)
        ensures
            match verdict {
                Ok(warnings) => cluster_size_verdict(validation) == Ok::<Seq<String>, StackError>(
                    warnings@,
                ),
                Err(error) => cluster_size_verdict(validation) == Err::<Seq<String>, StackError>(
                    error,
                ),
            },
            match validation {
                Ok(_) => verdict matches Ok(warnings) && warnings@.len() == 0,
                Err(ResourceRequestsError::ValidationErrors { errors }) => {
                    verdict matches Ok(warnings) && warnings@ == errors@
                },
                Err(ResourceRequestsError::Undetermined { message }) => verdict == Err::<
                    Vec<String>,
                    StackError,
                >(
                    StackError::StackResourceRequestsError {
                        source: ResourceRequestsError::Undetermined { message },
                    },
                ),
            },
    {
        match validation {
            Ok(_) => Ok(Vec::new()),
            Err(ResourceRequestsError::ValidationErrors { errors }) => Ok(errors),
            Err(source) => Err(StackError::StackResourceRequestsError { source }),
        }
    }

    /// Finds the release of this stack, and what of it is to be installed;
    /// nothing if the installation of the release is to be skipped.
    pub fn install_release<'a>(
        &'a self,
        release_list: &ReleaseList,
        operator_namespace: &'a str,
        product_namespace: &str,
        skip_release_install: bool,
    ) -> (installation: Result<Option<ReleaseInstallation<'a>>, StackError>)
        ensures
            installation matches Ok(None) <==> skip_release_install,
            installation is Err <==> !skip_release_install
                && !release_list.names.deep_view().contains(self.release@),
            installation matches Err(error) ==> error == StackError::NoSuchStack,
            installation matches Ok(Some(found)) ==> {
                &&& *found.release == self.release
                &&& *found.included == self.operators
                &&& found.excluded@.len() == 0
                &&& found.operator_namespace == operator_namespace
            },
    {
        if skip_release_install {
            return Ok(None);
        }
        if !release_list.has(&self.release) {
            return Err(StackError::NoSuchStack);
        }
        Ok(
            Some(
                ReleaseInstallation {
                    release: &self.release,
                    included: &self.operators,
                    excluded: Vec::new(),
                    operator_namespace,
                },
            ),
        )
    }

    /// What the outcome of the installation of the release means for the stack.
    pub fn judge_release_install(installed: Result<(), ReleaseInstallError>) -> (verdict: Result<
        (),
        StackError,
    >)
        ensures
            match installed {
                Ok(_) => verdict is Ok,
                Err(source) => verdict == Err::<(), StackError>(
                    StackError::ReleaseInstallError { source },
                ),
            },
    {
        match installed {
            Ok(_) => Ok(()),
            Err(source) => Err(StackError::ReleaseInstallError { source }),
        }
    }

    /// Checks if the stack can run in `namespace`.
    pub fn supports_namespace(&self, namespace: &str) -> (supported: bool)
        ensures
            supported == self.supports(namespace@),
            supported == (self.supported_namespaces@.len() == 0
                || self.supported_namespaces.deep_view().contains(namespace@)),
    {
        self.supported_namespaces.len() == 0 || lists(
            &self.supported_namespaces,
            &namespace.to_owned(),
        )
    }
}

} // verus!
