//! What each step of an installation of manifests asks for and leads to.
use std::collections::HashMap;

use vstd::prelude::*;
use vstd::string::to_string_from_display_ensures;

use crate::common::ManifestSpec;
use crate::helm::{HelmChart, HelmError};
use crate::kube::KubeClientError;
use crate::outside::yaml_document;
use crate::params::{IntoParametersError, Parameter};
use crate::path::{PathOrUrl, PathOrUrlParseError};
use crate::platform::cluster::ResourceRequestsError;
use crate::platform::stack::laws::{
    events_keep_installations_well_formed, manifests_and_namespace_are_settled,
    resolved_parameters_are_settled,
};
use crate::platform::stack::manifests::{
    ManifestAction, ManifestActionView, ManifestEvent, ManifestInstallationView, ManifestPhaseView,
};
use crate::platform::stack::spec::{cluster_size_verdict, StackError, StackSpecV2};
use crate::text::joined;
use crate::xfer::FileTransferError;

verus! {

/// Whether `installation` has come to the manifest at `index`, as the manifests
/// before it are installed: it asks where that one is found, or has ended well if
/// there is none.
pub open spec fn has_come_to(installation: ManifestInstallationView, index: int) -> bool {
    &&& installation.index == index
    &&& index < installation.manifests.len() ==> match installation.manifests[index] {
        ManifestSpec::HelmChart(file) => installation.action() == Some(
            ManifestActionView::Locate { location: file },
        ),
        ManifestSpec::PlainYaml(file) => installation.action() == Some(
            ManifestActionView::Locate { location: file },
        ),
    }
    &&& index >= installation.manifests.len() ==> installation.action() is None
    &&& index >= installation.manifests.len() ==> (installation.phase matches
        ManifestPhaseView::Finished { outcome: Ok(_) })
}

/// An installation starts with the first of its manifests, in the namespace and
/// with the parameters that it was given.
pub proof fn installations_start_with_the_first_manifest(
    manifests: Seq<ManifestSpec>,
    product_namespace: Seq<char>,
    parameters: HashMap<String, String>,
)
    ensures
        ({
            let start = ManifestInstallationView::started(manifests, product_namespace, parameters);
            &&& start.manifests == manifests
            &&& start.product_namespace == product_namespace
            &&& start.parameters == parameters
            &&& has_come_to(start, 0)
        }),
{
}

/// Parameters are resolved before anything else, those given against the valid
/// ones. The installation then starts with what they were resolved to, or ends
/// because they cannot be used.
pub proof fn parameters_are_resolved_first(
    installation: ManifestInstallationView,
    given: Seq<String>,
    valid: Seq<Parameter>,
    parameters: HashMap<String, String>,
    unusable: IntoParametersError,
)
    requires
        installation.phase == (ManifestPhaseView::ResolveParameters { given, valid }),
    ensures
        ({
            let resolved = installation.next(ManifestEvent::ParametersResolved(Ok(parameters)));
            let refused = installation.next(ManifestEvent::ParametersResolved(Err(unusable)));
            &&& installation.action() matches Some(
                ManifestActionView::ResolveParameters { given: asked, valid: known },
            ) && asked == given && known == valid
            &&& resolved.manifests == installation.manifests
            &&& resolved.product_namespace == installation.product_namespace
            &&& resolved.parameters == parameters
            &&& has_come_to(resolved, 0)
            &&& refused.phase == (ManifestPhaseView::Finished {
                outcome: Err(StackError::ParameterError { source: unusable }),
            })
            &&& refused.action() is None
        }),
{
}

/// A Helm chart is located where its manifest says, fetched from there with the
/// parameters of the installation, and installed as it is described: its
/// repository is added under its name and URL, and then the chart of that name
/// and version is installed from that repository, as a release of the name
/// described, with its options as values, in the product namespace that the
/// installation was started with, and with its output shown. After that the next
/// manifest is taken up. Options without a YAML form end the installation.
pub proof fn charts_are_installed_as_described(
    manifests: Seq<ManifestSpec>,
    product_namespace: Seq<char>,
    parameters: HashMap<String, String>,
    events: Seq<ManifestEvent>,
    location: PathOrUrl,
    chart: HelmChart,
)
    requires
        ({
            let reached = ManifestInstallationView::started(
                manifests,
                product_namespace,
                parameters,
            ).run(events);
            reached.phase is Locate && manifests[reached.index] is HelmChart
        }),
    ensures
        ({
            let reached = ManifestInstallationView::started(
                manifests,
                product_namespace,
                parameters,
            ).run(events);
            let located = reached.next(ManifestEvent::Located(Ok(location)));
            let fetched = located.next(ManifestEvent::ChartFetched(Ok(chart)));
            let added = fetched.next(ManifestEvent::RepoAdded(Ok(())));
            let installed = added.next(ManifestEvent::ChartInstalled(Ok(())));
            &&& has_come_to(reached, reached.index)
            &&& located.action() matches Some(
                ManifestActionView::FetchChart { location: from, parameters: with },
            ) && from == location && with == parameters
            &&& fetched.action() matches Some(ManifestActionView::AddRepo { name, url }) && name
                == chart.repo.name && url == chart.repo.url
            &&& match yaml_document(chart.options) {
                Ok(document) => {
                    &&& added.action() matches Some(
                        ManifestActionView::InstallChart {
                            operator_name,
                            release_name,
                            repo_name,
                            chart_name,
                            chart_version,
                            values,
                            namespace,
                            suppress_output,
                        },
                    )
                    &&& operator_name == chart.release_name
                    &&& release_name == chart.release_name
                    &&& repo_name == chart.repo.name
                    &&& chart_name == chart.name
                    &&& chart_version == Some(chart.version)
                    &&& values == Some(document)
                    &&& namespace == product_namespace
                    &&& !suppress_output
                    &&& installed.manifests == manifests
                    &&& has_come_to(installed, reached.index + 1)
                },
                Err(source) => {
                    &&& added.phase == (ManifestPhaseView::Finished {
                        outcome: Err(StackError::YamlError { source }),
                    })
                    &&& added.action() is None
                    &&& added.index == reached.index
                },
            }
        }),
{
    let start = ManifestInstallationView::started(manifests, product_namespace, parameters);
    events_keep_installations_well_formed(start, events);
    manifests_and_namespace_are_settled(start, events);
    resolved_parameters_are_settled(start, events);
}

/// YAML manifests are located where their manifest says, fetched from there with
/// the parameters of the installation, and deployed as they were fetched, over a
/// connection made for that, in the product namespace that the installation was
/// started with. After that the next manifest is taken up.
pub proof fn yaml_is_deployed_as_fetched(
    manifests: Seq<ManifestSpec>,
    product_namespace: Seq<char>,
    parameters: HashMap<String, String>,
    events: Seq<ManifestEvent>,
    location: PathOrUrl,
    content: String,
)
    requires
        ({
            let reached = ManifestInstallationView::started(
                manifests,
                product_namespace,
                parameters,
            ).run(events);
            reached.phase is Locate && manifests[reached.index] is PlainYaml
        }),
    ensures
        ({
            let reached = ManifestInstallationView::started(
                manifests,
                product_namespace,
                parameters,
            ).run(events);
            let located = reached.next(ManifestEvent::Located(Ok(location)));
            let fetched = located.next(ManifestEvent::ManifestsFetched(Ok(content)));
            let connected = fetched.next(ManifestEvent::Connected(Ok(())));
            let deployed = connected.next(ManifestEvent::Deployed(Ok(())));
            &&& has_come_to(reached, reached.index)
            &&& located.action() matches Some(
                ManifestActionView::FetchManifests { location: from, parameters: with },
            ) && from == location && with == parameters
            &&& fetched.action() == Some(ManifestActionView::Connect)
            &&& connected.action() matches Some(
                ManifestActionView::Deploy { manifests: deploying, namespace },
            ) && deploying == content && namespace == product_namespace
            &&& deployed.manifests == manifests
            &&& has_come_to(deployed, reached.index + 1)
        }),
{
    let start = ManifestInstallationView::started(manifests, product_namespace, parameters);
    events_keep_installations_well_formed(start, events);
    manifests_and_namespace_are_settled(start, events);
    resolved_parameters_are_settled(start, events);
}

/// A step that fails ends the installation at once, with the error that says so,
/// and the manifest that it belongs to is not counted as installed.
pub proof fn failing_steps_end_the_installation(
    installation: ManifestInstallationView,
    unparsed: PathOrUrlParseError,
    untransferred: FileTransferError,
    helm: HelmError,
    kube: KubeClientError,
)
    ensures
        installation.phase is Locate ==> ended_with(
            installation,
            ManifestEvent::Located(Err(unparsed)),
            StackError::PathOrUrlParseError { source: unparsed },
        ),
        installation.phase is FetchChart ==> ended_with(
            installation,
            ManifestEvent::ChartFetched(Err(untransferred)),
            StackError::TransferError { source: untransferred },
        ),
        installation.phase is AddRepo ==> ended_with(
            installation,
            ManifestEvent::RepoAdded(Err(helm)),
            StackError::HelmError { source: helm },
        ),
        installation.phase is InstallChart ==> ended_with(
            installation,
            ManifestEvent::ChartInstalled(Err(helm)),
            StackError::HelmError { source: helm },
        ),
        installation.phase is FetchManifests ==> ended_with(
            installation,
            ManifestEvent::ManifestsFetched(Err(untransferred)),
            StackError::TransferError { source: untransferred },
        ),
        installation.phase is Connect ==> ended_with(
            installation,
            ManifestEvent::Connected(Err(kube)),
            StackError::KubeError { source: kube },
        ),
        installation.phase is Deploy ==> ended_with(
            installation,
            ManifestEvent::Deployed(Err(kube)),
            StackError::KubeError { source: kube },
        ),
        installation.phase is Finished <==> installation.action() is None,
{
}

/// Whether `event` ends `installation` with `error`, at the manifest where it is.
pub open spec fn ended_with(
    installation: ManifestInstallationView,
    event: ManifestEvent,
    error: StackError,
) -> bool {
    let ended = installation.next(event);
    &&& ended.phase == (ManifestPhaseView::Finished { outcome: Err(error) })
    &&& ended.action() is None
    &&& ended.index == installation.index
}

/// An event that is no answer to what the installation asks for changes nothing.
pub proof fn unasked_events_change_nothing(
    installation: ManifestInstallationView,
    event: ManifestEvent,
)
    requires
        match installation.action() {
            Some(ManifestActionView::ResolveParameters { .. }) => !(event is ParametersResolved),
            Some(ManifestActionView::Locate { .. }) => !(event is Located),
            Some(ManifestActionView::FetchChart { .. }) => !(event is ChartFetched),
            Some(ManifestActionView::AddRepo { .. }) => !(event is RepoAdded),
            Some(ManifestActionView::InstallChart { .. }) => !(event is ChartInstalled),
            Some(ManifestActionView::FetchManifests { .. }) => !(event is ManifestsFetched),
            Some(ManifestActionView::Connect) => !(event is Connected),
            Some(ManifestActionView::Deploy { .. }) => !(event is Deployed),
            None => true,
        },
    ensures
        installation.next(event) == installation,
{
}

/// A cluster that is large enough gives no reason to warn, and one whose
/// resources could not be found out stands in the way of the stack.
pub proof fn only_unknown_resources_are_an_error(message: String)
    ensures
        cluster_size_verdict(Ok(())) matches Ok(warnings) && warnings.len() == 0,
        cluster_size_verdict(Err(ResourceRequestsError::Undetermined { message })) == Err::<
            Seq<String>,
            StackError,
        >(
            StackError::StackResourceRequestsError {
                source: ResourceRequestsError::Undetermined { message },
            },
        ),
{
}

/// A stack runs in a namespace that it lists, wherever in its list that is; and
/// if it lists any, in no namespace that differs from all of them.
pub proof fn stacks_run_where_they_say(stack: StackSpecV2, namespace: Seq<char>)
    ensures
        stack.supports(namespace) <==> stack.supported_namespaces@.len() == 0 || exists|i: int|
            0 <= i < stack.supported_namespaces@.len() && (
            #[trigger] stack.supported_namespaces@[i])@ == namespace,
{
    let listed = stack.supported_namespaces.deep_view();
    assert forall|i: int| 0 <= i < listed.len() implies listed[i]
        == (#[trigger] stack.supported_namespaces@[i])@ by {}
    if listed.contains(namespace) {
        let i = listed.index_of(namespace);
        assert(stack.supported_namespaces@[i]@ == namespace);
    }
    if exists|i: int|
        0 <= i < stack.supported_namespaces@.len() && (
        #[trigger] stack.supported_namespaces@[i])@ == namespace {
        let i = choose|i: int|
            0 <= i < stack.supported_namespaces@.len() && (
            #[trigger] stack.supported_namespaces@[i])@ == namespace;
        assert(listed[i] == namespace);
    }
}

/// Each error is described in its own words, and an error that quotes another
/// ends with the words of that one. A refused namespace is named, and so are those
/// that would do.
pub proof fn errors_are_described_in_words(error: StackError, text: Seq<char>)
    requires
        error.described_by(text),
    ensures
        error matches StackError::ParameterError { source } ==> text == "parameter parse error: "@
            + source.message@,
        error is NoSuchStack ==> text == "no such stack"@,
        error matches StackError::ReleaseInstallError { source } ==> text
            == "release install error: "@ + source.message@,
        error matches StackError::HelmError { source } ==> text == "Helm error: "@
            + source.message@,
        error matches StackError::KubeError { source } ==> text == "kube error: "@
            + source.message@,
        error matches StackError::YamlError { source } ==> exists|shown: String|
            #[trigger] to_string_from_display_ensures(&source, shown) && text == "yaml error: "@
                + shown@,
        error is StackResourceRequestsError ==> text == "stack resource requests error"@,
        error is PathOrUrlParseError ==> text == "path or url parse error"@,
        error is TransferError ==> text == "transfer error"@,
        error matches StackError::UnsupportedNamespace { requested, supported } ==> text
            == "cannot install stack in namespace '"@ + requested@ + "', only '"@ + joined(
            supported.deep_view(),
            ", "@,
        ) + "' supported"@,
{
}

/// What an action asks for is told apart by its view, with everything that it
/// holds.
pub proof fn actions_show_what_they_hold(action: ManifestAction<'_>)
    ensures
        match action {
            ManifestAction::ResolveParameters { given, valid } => {
                &&& action@ matches ManifestActionView::ResolveParameters {
                    given: asked,
                    valid: known,
                }
                &&& asked == given@
                &&& known == valid@
            },
            ManifestAction::Locate { location } => {
                &&& action@ matches ManifestActionView::Locate { location: file }
                &&& file == *location
            },
            ManifestAction::FetchChart { location, parameters } => {
                &&& action@ matches ManifestActionView::FetchChart {
                    location: from,
                    parameters: with,
                }
                &&& from == *location
                &&& with == *parameters
            },
            ManifestAction::AddRepo { name, url } => {
                &&& action@ matches ManifestActionView::AddRepo { name: repo, url: place }
                &&& repo == *name
                &&& place == *url
            },
            ManifestAction::InstallChart {
                operator_name,
                release_name,
                chart,
                values,
                namespace,
                suppress_output,
            } => {
                &&& action@ matches ManifestActionView::InstallChart {
                    operator_name: operator,
                    release_name: release,
                    repo_name,
                    chart_name,
                    chart_version,
                    values: document,
                    namespace: place,
                    suppress_output: silent,
                }
                &&& operator == *operator_name
                &&& release == *release_name
                &&& repo_name == *chart.repo_name
                &&& chart_name == *chart.chart_name
                &&& chart.chart_version is Some <==> chart_version is Some
                &&& chart.chart_version matches Some(version) ==> chart_version == Some(*version)
                &&& values is Some <==> document is Some
                &&& values matches Some(text) ==> document == Some(text@)
                &&& place == namespace@
                &&& silent == suppress_output
            },
            ManifestAction::FetchManifests { location, parameters } => {
                &&& action@ matches ManifestActionView::FetchManifests {
                    location: from,
                    parameters: with,
                }
                &&& from == *location
                &&& with == *parameters
            },
            ManifestAction::Connect => action@ is Connect,
            ManifestAction::Deploy { manifests, namespace } => {
                &&& action@ matches ManifestActionView::Deploy {
                    manifests: content,
                    namespace: place,
                }
                &&& content == *manifests
                &&& place == namespace@
            },
        },
{
}

} // verus!
