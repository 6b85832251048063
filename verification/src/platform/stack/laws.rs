//! What holds of every stack, and of every installation of manifests.
use std::collections::HashMap;

use vstd::prelude::*;

use crate::common::ManifestSpec;
use crate::helm::{HelmChart, HelmError};
use crate::kube::KubeClientError;
use crate::outside::yaml_document;
use crate::params::{IntoParametersError, Parameter};
use crate::path::{PathOrUrl, PathOrUrlParseError};
use crate::platform::stack::manifests::{
    ManifestActionView, ManifestEvent, ManifestInstallationView, ManifestPhaseView,
};
use crate::platform::cluster::ResourceRequestsError;
use crate::platform::stack::spec::{cluster_size_verdict, StackError, StackSpecV2};
use crate::xfer::FileTransferError;

verus! {

/// A stack that lists no namespaces can run in any of them; one that lists some
/// can run in these and in no other.
pub proof fn listed_namespaces_are_the_supported_ones(stack: StackSpecV2, namespace: Seq<char>)
    ensures
        stack.supported_namespaces@.len() == 0 ==> stack.supports(namespace),
        stack.supported_namespaces@.len() > 0 ==> (stack.supports(namespace)
            <==> stack.supported_namespaces.deep_view().contains(namespace)),
{
}

/// A cluster that lacks resources never stands in the way of a stack: each thing
/// it lacks is a warning, and nothing more.
pub proof fn lacking_resources_are_only_warnings(errors: Vec<String>)
    ensures
        cluster_size_verdict(Err(ResourceRequestsError::ValidationErrors { errors })) == Ok::<
            Seq<String>,
            StackError,
        >(errors@),
{
}

/// Whether `event` answers what an installation in `phase` asks for.
pub open spec fn awaited(phase: ManifestPhaseView, event: ManifestEvent) -> bool {
    match phase {
        ManifestPhaseView::ResolveParameters { .. } => event is ParametersResolved,
        ManifestPhaseView::Locate => event is Located,
        ManifestPhaseView::FetchChart { .. } => event is ChartFetched,
        ManifestPhaseView::AddRepo { .. } => event is RepoAdded,
        ManifestPhaseView::InstallChart { .. } => event is ChartInstalled,
        ManifestPhaseView::FetchManifests { .. } => event is ManifestsFetched,
        ManifestPhaseView::Connect { .. } => event is Connected,
        ManifestPhaseView::Deploy { .. } => event is Deployed,
        ManifestPhaseView::Finished { .. } => false,
    }
}

/// How many answers an installation still needs, if none of them ends it early.
pub open spec fn answers_left(installation: ManifestInstallationView) -> int {
    let all = 4 * installation.manifests.len() as int;
    let later = all - 4 * (installation.index + 1);
    match installation.phase {
        ManifestPhaseView::ResolveParameters { .. } => all + 1,
        ManifestPhaseView::Locate => later + 4,
        ManifestPhaseView::FetchChart { .. } => later + 3,
        ManifestPhaseView::AddRepo { .. } => later + 2,
        ManifestPhaseView::InstallChart { .. } => later + 1,
        ManifestPhaseView::FetchManifests { .. } => later + 3,
        ManifestPhaseView::Connect { .. } => later + 2,
        ManifestPhaseView::Deploy { .. } => later + 1,
        ManifestPhaseView::Finished { .. } => 0,
    }
}

/// Every event keeps an installation well-formed.
pub proof fn events_keep_installations_well_formed(
    installation: ManifestInstallationView,
    events: Seq<ManifestEvent>,
)
    requires
        installation.well_formed(),
    ensures
        installation.run(events).well_formed(),
    decreases events.len(),
{
    if events.len() > 0 {
        events_keep_installations_well_formed(installation, events.drop_last());
    }
}

/// Each answer that was asked for brings the installation closer to its end, and
/// any other event leaves it as it is.
pub proof fn answers_make_progress(installation: ManifestInstallationView, event: ManifestEvent)
    requires
        installation.well_formed(),
    ensures
        awaited(installation.phase, event) ==> 0 <= answers_left(installation.next(event))
            < answers_left(installation),
        !awaited(installation.phase, event) ==> installation.next(event) == installation,
        installation.action() is None <==> answers_left(installation) == 0,
{
}

/// An installation that has ended stays as it ended, whatever happens later.
pub proof fn ended_installation_stays(
    installation: ManifestInstallationView,
    events: Seq<ManifestEvent>,
)
    requires
        installation.phase is Finished,
    ensures
        installation.run(events) == installation,
    decreases events.len(),
{
    if events.len() > 0 {
        ended_installation_stays(installation, events.drop_last());
    }
}

/// What is installed, and where, is settled when the installation starts.
pub proof fn manifests_and_namespace_are_settled(
    installation: ManifestInstallationView,
    events: Seq<ManifestEvent>,
)
    ensures
        installation.run(events).manifests == installation.manifests,
        installation.run(events).product_namespace == installation.product_namespace,
    decreases events.len(),
{
    if events.len() > 0 {
        manifests_and_namespace_are_settled(installation, events.drop_last());
    }
}

/// The parameters are settled once they are resolved: every manifest is adapted
/// with the same ones.
pub proof fn resolved_parameters_are_settled(
    installation: ManifestInstallationView,
    events: Seq<ManifestEvent>,
)
    requires
        !(installation.phase is ResolveParameters),
    ensures
        installation.run(events).parameters == installation.parameters,
        !(installation.run(events).phase is ResolveParameters),
    decreases events.len(),
{
    if events.len() > 0 {
        resolved_parameters_are_settled(installation, events.drop_last());
    }
}

/// Parameters that cannot be used end the installation before any manifest is
/// looked at; those that can are the ones that it goes on with.
pub proof fn parameters_come_first(
    installation: ManifestInstallationView,
    manifests: Seq<ManifestSpec>,
    product_namespace: Seq<char>,
    given: Seq<String>,
    valid: Seq<Parameter>,
    resolved: Result<HashMap<String, String>, IntoParametersError>,
)
    requires
        installation.unresolved(manifests, product_namespace, given, valid),
    ensures
        installation.action() == Some(ManifestActionView::ResolveParameters { given, valid }),
        match resolved {
            Ok(parameters) => installation.next(ManifestEvent::ParametersResolved(resolved))
                == ManifestInstallationView::started(manifests, product_namespace, parameters),
            Err(source) => {
                let ended = installation.next(ManifestEvent::ParametersResolved(resolved));
                &&& ended.phase == (ManifestPhaseView::Finished {
                    outcome: Err(StackError::ParameterError { source }),
                })
                &&& ended.index == 0
            },
        },
{
}

/// Without manifests there is nothing to do, and that is a success.
pub proof fn nothing_to_install_succeeds(
    product_namespace: Seq<char>,
    parameters: HashMap<String, String>,
)
    ensures
        ManifestInstallationView::started(seq![], product_namespace, parameters).phase == (
        ManifestPhaseView::Finished { outcome: Ok(()) }),
{
}

/// The error that ends the installation of a Helm chart whose steps are answered
/// like this: that of the first step that failed, if one did.
pub open spec fn chart_failure(
    located: Result<PathOrUrl, PathOrUrlParseError>,
    fetched: Result<HelmChart, FileTransferError>,
    added: Result<(), HelmError>,
    installed: Result<(), HelmError>,
) -> Option<StackError> {
    if located is Err {
        Some(StackError::PathOrUrlParseError { source: located->Err_0 })
    } else if fetched is Err {
        Some(StackError::TransferError { source: fetched->Err_0 })
    } else if added is Err {
        Some(StackError::HelmError { source: added->Err_0 })
    } else if yaml_document(fetched->Ok_0.options) is Err {
        Some(StackError::YamlError { source: yaml_document(fetched->Ok_0.options)->Err_0 })
    } else if installed is Err {
        Some(StackError::HelmError { source: installed->Err_0 })
    } else {
        None
    }
}

/// A Helm chart is installed if all of its steps succeed, and the installation
/// goes on with the next manifest; otherwise it ends with the error of the first
/// step that failed, and no later manifest is taken up.
pub proof fn chart_is_installed_or_ends_the_installation(
    installation: ManifestInstallationView,
    located: Result<PathOrUrl, PathOrUrlParseError>,
    fetched: Result<HelmChart, FileTransferError>,
    added: Result<(), HelmError>,
    installed: Result<(), HelmError>,
)
    requires
        installation.well_formed(),
        installation.phase is Locate,
        installation.manifests[installation.index] is HelmChart,
    ensures
        ({
            let after = installation
                .next(ManifestEvent::Located(located))
                .next(ManifestEvent::ChartFetched(fetched))
                .next(ManifestEvent::RepoAdded(added))
                .next(ManifestEvent::ChartInstalled(installed));
            match chart_failure(located, fetched, added, installed) {
                None => after == installation.at(installation.index + 1),
                Some(error) => after == installation.failed(error),
            }
        }),
{
}

/// The error that ends the installation of YAML manifests whose steps are
/// answered like this: that of the first step that failed, if one did.
pub open spec fn yaml_failure(
    located: Result<PathOrUrl, PathOrUrlParseError>,
    fetched: Result<String, FileTransferError>,
    connected: Result<(), KubeClientError>,
    deployed: Result<(), KubeClientError>,
) -> Option<StackError> {
    if located is Err {
        Some(StackError::PathOrUrlParseError { source: located->Err_0 })
    } else if fetched is Err {
        Some(StackError::TransferError { source: fetched->Err_0 })
    } else if connected is Err {
        Some(StackError::KubeError { source: connected->Err_0 })
    } else if deployed is Err {
        Some(StackError::KubeError { source: deployed->Err_0 })
    } else {
        None
    }
}

/// YAML manifests are deployed if all of their steps succeed, and the
/// installation goes on with the next manifest; otherwise it ends with the error
/// of the first step that failed, and no later manifest is taken up.
pub proof fn yaml_is_deployed_or_ends_the_installation(
    installation: ManifestInstallationView,
    located: Result<PathOrUrl, PathOrUrlParseError>,
    fetched: Result<String, FileTransferError>,
    connected: Result<(), KubeClientError>,
    deployed: Result<(), KubeClientError>,
)
    requires
        installation.well_formed(),
        installation.phase is Locate,
        installation.manifests[installation.index] is PlainYaml,
    ensures
        ({
            let after = installation
                .next(ManifestEvent::Located(located))
                .next(ManifestEvent::ManifestsFetched(fetched))
                .next(ManifestEvent::Connected(connected))
                .next(ManifestEvent::Deployed(deployed));
            match yaml_failure(located, fetched, connected, deployed) {
                None => after == installation.at(installation.index + 1),
                Some(error) => after == installation.failed(error),
            }
        }),
{
}

/// What was fetched is what is deployed, in the namespace that was asked for.
pub proof fn fetched_manifests_are_deployed(
    installation: ManifestInstallationView,
    fetched: String,
)
    requires
        installation.phase is FetchManifests,
    ensures
        installation
            .next(ManifestEvent::ManifestsFetched(Ok(fetched)))
            .next(ManifestEvent::Connected(Ok(())))
            .action() == Some(
            ManifestActionView::Deploy {
                manifests: fetched,
                namespace: installation.product_namespace,
            },
        ),
{
}

/// Whether `event` reports that a manifest was installed.
pub open spec fn reports_installed(event: ManifestEvent) -> bool {
    ||| event matches ManifestEvent::ChartInstalled(Ok(_))
    ||| event matches ManifestEvent::Deployed(Ok(_))
}

/// How many of `events` report that a manifest was installed.
pub open spec fn reports(events: Seq<ManifestEvent>) -> nat
    decreases events.len(),
{
    if events.len() == 0 {
        0
    } else {
        reports(events.drop_last()) + if reports_installed(events.last()) {
            1nat
        } else {
            0nat
        }
    }
}

/// No manifest counts as installed without a report that one was, and an
/// installation that succeeds counts all of them.
pub proof fn success_takes_a_report_for_every_manifest(
    manifests: Seq<ManifestSpec>,
    product_namespace: Seq<char>,
    parameters: HashMap<String, String>,
    events: Seq<ManifestEvent>,
)
    ensures
        ({
            let installation = ManifestInstallationView::started(
                manifests,
                product_namespace,
                parameters,
            ).run(events);
            &&& installation.index <= reports(events)
            &&& installation.phase matches ManifestPhaseView::Finished { outcome: Ok(_) }
                ==> installation.index == manifests.len()
        }),
    decreases events.len(),
{
    let start = ManifestInstallationView::started(manifests, product_namespace, parameters);
    events_keep_installations_well_formed(start, events);
    manifests_and_namespace_are_settled(start, events);
    if events.len() > 0 {
        success_takes_a_report_for_every_manifest(
            manifests,
            product_namespace,
            parameters,
            events.drop_last(),
        );
        resolved_parameters_are_settled(start, events.drop_last());
    }
}

/// Whether `event` is the failure that ends an installation with `error`. The
/// failure to write the options of `chart` shows when its repository was added.
pub open spec fn causes(event: ManifestEvent, chart: HelmChart, error: StackError) -> bool {
    match event {
        ManifestEvent::ParametersResolved(Err(source)) => error == StackError::ParameterError {
            source,
        },
        ManifestEvent::Located(Err(source)) => error == StackError::PathOrUrlParseError { source },
        ManifestEvent::ChartFetched(Err(source)) => error == StackError::TransferError { source },
        ManifestEvent::RepoAdded(Err(source)) => error == StackError::HelmError { source },
        ManifestEvent::RepoAdded(Ok(_)) => match yaml_document(chart.options) {
            Ok(_) => false,
            Err(source) => error == StackError::YamlError { source },
        },
        ManifestEvent::ChartInstalled(Err(source)) => error == StackError::HelmError { source },
        ManifestEvent::ManifestsFetched(Err(source)) => error == StackError::TransferError {
            source,
        },
        ManifestEvent::Connected(Err(source)) => error == StackError::KubeError { source },
        ManifestEvent::Deployed(Err(source)) => error == StackError::KubeError { source },
        _ => false,
    }
}

/// Whether `events` hold, at `failure`, the failure that ends an installation
/// with `error`, where the chart in question, if it is one, was fetched.
pub open spec fn failure_at(
    events: Seq<ManifestEvent>,
    failure: int,
    chart: HelmChart,
    error: StackError,
) -> bool {
    &&& 0 <= failure < events.len()
    &&& causes(events[failure], chart, error)
    &&& error is YamlError ==> events.contains(ManifestEvent::ChartFetched(Ok(chart)))
}

/// An installation fails only where one of its steps did, or where the options
/// of a chart that it fetched have no YAML form, and with the error that says so.
pub proof fn failures_have_a_cause(
    installation: ManifestInstallationView,
    events: Seq<ManifestEvent>,
)
    requires
        installation.phase is ResolveParameters || installation.phase is Locate,
    ensures
        installation.run(events).phase matches ManifestPhaseView::AddRepo { chart }
            ==> events.contains(ManifestEvent::ChartFetched(Ok(chart))),
        installation.run(events).phase matches ManifestPhaseView::Finished { outcome: Err(error) }
            ==> exists|failure: int, chart: HelmChart| failure_at(events, failure, chart, error),
    decreases events.len(),
{
    if events.len() > 0 {
        let earlier = events.drop_last();
        failures_have_a_cause(installation, earlier);
        let before = installation.run(earlier);
        let after = installation.run(events);
        let last = events.len() - 1;
        assert forall|event: ManifestEvent| earlier.contains(event) implies events.contains(
            event,
        ) by {
            assert(events[earlier.index_of(event)] == event);
        }
        assert(events[last] == events.last());
        if after.phase is Finished && after.phase->outcome is Err {
            let error = after.phase->outcome->Err_0;
            if before.phase is Finished {
                let (failure, chart) = choose|failure: int, chart: HelmChart|
                    failure_at(earlier, failure, chart, error);
                assert(failure_at(events, failure, chart, error));
            } else {
                let chart = before.phase->AddRepo_chart;
                assert(failure_at(events, last, chart, error));
            }
        }
    }
}

/// No event takes an installation past the manifest it is at, except the report
/// that this one was installed, which takes it to the next one.
pub proof fn manifests_are_taken_in_order(
    installation: ManifestInstallationView,
    event: ManifestEvent,
)
    requires
        !(installation.phase is ResolveParameters),
    ensures
        installation.next(event).index == installation.index || (reports_installed(event)
            && awaited(installation.phase, event) && installation.next(event).index
            == installation.index + 1),
{
}

} // verus!
