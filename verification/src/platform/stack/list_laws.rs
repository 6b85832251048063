//! What holds of the installation of a whole list of manifests.
use std::collections::HashMap;

use vstd::prelude::*;

use crate::common::ManifestSpec;
use crate::helm::{HelmChart, HelmError};
use crate::kube::KubeClientError;
use crate::outside::yaml_document;
use crate::path::{PathOrUrl, PathOrUrlParseError};
use crate::platform::stack::laws::{
    chart_failure, chart_is_installed_or_ends_the_installation, ended_installation_stays,
    events_keep_installations_well_formed, manifests_and_namespace_are_settled,
    resolved_parameters_are_settled, yaml_failure, yaml_is_deployed_or_ends_the_installation,
};
use crate::platform::stack::manifests::{
    ManifestEvent, ManifestInstallationView, ManifestPhaseView,
};
use crate::platform::stack::spec::StackError;
use crate::xfer::FileTransferError;

verus! {

/// How the steps of the installation of one manifest are answered.
#[allow(inconsistent_fields)]
pub enum ManifestAnswers {
    /// The steps of a Helm chart.
    HelmChart {
        located: Result<PathOrUrl, PathOrUrlParseError>,
        fetched: Result<HelmChart, FileTransferError>,
        added: Result<(), HelmError>,
        installed: Result<(), HelmError>,
    },
    /// The steps of YAML manifests.
    PlainYaml {
        located: Result<PathOrUrl, PathOrUrlParseError>,
        fetched: Result<String, FileTransferError>,
        connected: Result<(), KubeClientError>,
        deployed: Result<(), KubeClientError>,
    },
}

impl ManifestAnswers {
    /// Whether these are answers to the steps of a manifest of this kind.
    pub open spec fn fit(self, manifest: ManifestSpec) -> bool {
        match manifest {
            ManifestSpec::HelmChart(_) => self is HelmChart,
            ManifestSpec::PlainYaml(_) => self is PlainYaml,
        }
    }

    /// The answers as events, in order.
    pub open spec fn events(self) -> Seq<ManifestEvent> {
        match self {
            ManifestAnswers::HelmChart { located, fetched, added, installed } => seq![
                ManifestEvent::Located(located),
                ManifestEvent::ChartFetched(fetched),
                ManifestEvent::RepoAdded(added),
                ManifestEvent::ChartInstalled(installed),
            ],
            ManifestAnswers::PlainYaml { located, fetched, connected, deployed } => seq![
                ManifestEvent::Located(located),
                ManifestEvent::ManifestsFetched(fetched),
                ManifestEvent::Connected(connected),
                ManifestEvent::Deployed(deployed),
            ],
        }
    }

    /// The error of the first step that failed, if one did.
    pub open spec fn failure(self) -> Option<StackError> {
        match self {
            ManifestAnswers::HelmChart { located, fetched, added, installed } => chart_failure(
                located,
                fetched,
                added,
                installed,
            ),
            ManifestAnswers::PlainYaml { located, fetched, connected, deployed } => yaml_failure(
                located,
                fetched,
                connected,
                deployed,
            ),
        }
    }

    /// Which of the events reports the first step that failed, if one did. That
    /// the options of a chart have no YAML form shows when its repository was
    /// added.
    pub open spec fn failing_step(self) -> int {
        match self {
            ManifestAnswers::HelmChart { located, fetched, added, installed } => {
                if located is Err {
                    0
                } else if fetched is Err {
                    1
                } else if added is Err || yaml_document(fetched->Ok_0.options) is Err {
                    2
                } else {
                    3
                }
            },
            ManifestAnswers::PlainYaml { located, fetched, connected, deployed } => {
                if located is Err {
                    0
                } else if fetched is Err {
                    1
                } else if connected is Err {
                    2
                } else {
                    3
                }
            },
        }
    }
}

/// Whether there are answers for each of the manifests, and each fit theirs.
pub open spec fn all_fit(answers: Seq<ManifestAnswers>, manifests: Seq<ManifestSpec>) -> bool {
    &&& answers.len() == manifests.len()
    &&& forall|i: int| 0 <= i < answers.len() ==> (#[trigger] answers[i]).fit(manifests[i])
}

/// The answers for one manifest after another, as events.
pub open spec fn all_events(answers: Seq<ManifestAnswers>) -> Seq<ManifestEvent>
    decreases answers.len(),
{
    if answers.len() == 0 {
        seq![]
    } else {
        all_events(answers.drop_last()) + answers.last().events()
    }
}

/// Whether no step of any of the first `count` manifests failed.
pub open spec fn none_failed(answers: Seq<ManifestAnswers>, count: int) -> bool {
    forall|i: int| 0 <= i < count ==> (#[trigger] answers[i]).failure() is None
}

/// Whether a step of the manifest at `index` failed, and none of an earlier one.
pub open spec fn first_failing(answers: Seq<ManifestAnswers>, index: int) -> bool {
    &&& 0 <= index < answers.len()
    &&& answers[index].failure() is Some
    &&& none_failed(answers, index)
}

/// Events that come one after the other can be taken in two portions.
proof fn run_in_portions(
    installation: ManifestInstallationView,
    first: Seq<ManifestEvent>,
    later: Seq<ManifestEvent>,
)
    ensures
        installation.run(first + later) == installation.run(first).run(later),
    decreases later.len(),
{
    if later.len() == 0 {
        assert(first + later == first);
    } else {
        assert((first + later).drop_last() == first + later.drop_last());
        run_in_portions(installation, first, later.drop_last());
    }
}

/// Running the four events of a manifest is taking them one by one.
proof fn run_of_four(
    installation: ManifestInstallationView,
    a: ManifestEvent,
    b: ManifestEvent,
    c: ManifestEvent,
    d: ManifestEvent,
)
    ensures
        installation.run(seq![a, b, c, d]) == installation.next(a).next(b).next(c).next(d),
{
    assert(seq![a, b, c, d].drop_last() == seq![a, b, c]);
    assert(seq![a, b, c].drop_last() == seq![a, b]);
    assert(seq![a, b].drop_last() == seq![a]);
    assert(seq![a].drop_last() == Seq::<ManifestEvent>::empty());
    reveal_with_fuel(ManifestInstallationView::run, 5);
}

/// Where an installation stands after the answers for one manifest.
proof fn run_of_one_manifest(installation: ManifestInstallationView, answers: ManifestAnswers)
    requires
        installation.well_formed(),
        installation.phase is Locate,
        answers.fit(installation.manifests[installation.index]),
    ensures
        installation.run(answers.events()) == match answers.failure() {
            None => installation.at(installation.index + 1),
            Some(error) => installation.failed(error),
        },
{
    let events = answers.events();
    run_of_four(installation, events[0], events[1], events[2], events[3]);
    assert(events == seq![events[0], events[1], events[2], events[3]]);
    match answers {
        ManifestAnswers::HelmChart { located, fetched, added, installed } => {
            chart_is_installed_or_ends_the_installation(
                installation,
                located,
                fetched,
                added,
                installed,
            );
        },
        ManifestAnswers::PlainYaml { located, fetched, connected, deployed } => {
            yaml_is_deployed_or_ends_the_installation(
                installation,
                located,
                fetched,
                connected,
                deployed,
            );
        },
    }
}

/// An installation goes on until the answer that reports the failing step of its
/// manifest, and ends with that one.
proof fn run_up_to_failure(installation: ManifestInstallationView, answers: ManifestAnswers)
    requires
        installation.well_formed(),
        installation.phase is Locate,
        answers.fit(installation.manifests[installation.index]),
        answers.failure() is Some,
    ensures
        ({
            let step = answers.failing_step();
            &&& installation.run(answers.events().take(step)).action() is Some
            &&& installation.run(answers.events().take(step + 1)) == installation.failed(
                answers.failure()->0,
            )
        }),
{
    let events = answers.events();
    reveal_with_fuel(ManifestInstallationView::run, 5);
    assert(events.take(4).drop_last() == events.take(3));
    assert(events.take(3).drop_last() == events.take(2));
    assert(events.take(2).drop_last() == events.take(1));
    assert(events.take(1).drop_last() == events.take(0));
    assert(events.take(0).len() == 0);
    assert(events.take(1).last() == events[0]);
    assert(events.take(2).last() == events[1]);
    assert(events.take(3).last() == events[2]);
    assert(events.take(4).last() == events[3]);
}

/// Where an installation stands after the answers for the first `count`
/// manifests.
proof fn run_of_some_manifests(
    start: ManifestInstallationView,
    answers: Seq<ManifestAnswers>,
    count: int,
)
    requires
        start == start.at(0),
        all_fit(answers, start.manifests),
        0 <= count <= answers.len(),
    ensures
        none_failed(answers, count) ==> start.run(all_events(answers.take(count))) == start.at(
            count,
        ),
        forall|index: int| #[trigger]
            first_failing(answers, index) && index < count ==> start.run(
                all_events(answers.take(count)),
            ) == start.at(index).failed(answers[index].failure()->0),
    decreases count,
{
    if count == 0 {
        assert(answers.take(0) == Seq::<ManifestAnswers>::empty());
    } else {
        let last = count - 1;
        let taken = answers.take(count);
        assert(taken.drop_last() == answers.take(last));
        assert(taken.last() == answers[last]);
        run_of_some_manifests(start, answers, last);
        let earlier = start.run(all_events(answers.take(last)));
        run_in_portions(start, all_events(answers.take(last)), answers[last].events());
        if none_failed(answers, last) {
            assert(earlier == start.at(last));
            run_of_one_manifest(earlier, answers[last]);
        }
        assert forall|index: int| #[trigger]
            first_failing(answers, index) && index < count implies start.run(all_events(taken))
            == start.at(index).failed(answers[index].failure()->0) by {
            if index < last {
                ended_installation_stays(earlier, answers[last].events());
            }
        }
    }
}

/// An installation ends well if and only if no step of any of its manifests
/// fails, and has then installed all of them. Otherwise it ends with the error of
/// the first manifest with a failing step, with just the manifests before that
/// one installed. It goes on until the answer that reports the failing step and
/// ends with that one; from there on nothing more is asked, and later answers
/// change nothing.
pub proof fn installation_ends_with_the_first_failing_manifest(
    manifests: Seq<ManifestSpec>,
    product_namespace: Seq<char>,
    parameters: HashMap<String, String>,
    answers: Seq<ManifestAnswers>,
)
    requires
        all_fit(answers, manifests),
    ensures
        ({
            let start = ManifestInstallationView::started(manifests, product_namespace, parameters);
            let end = start.run(all_events(answers));
            &&& end.phase == (ManifestPhaseView::Finished { outcome: Ok(()) }) <==> none_failed(
                answers,
                answers.len() as int,
            )
            &&& none_failed(answers, answers.len() as int) ==> end.index == manifests.len()
            &&& end.action() is None
            &&& forall|failing: int| #[trigger]
                first_failing(answers, failing) ==> {
                    &&& end.phase == (ManifestPhaseView::Finished {
                        outcome: Err(answers[failing].failure()->0),
                    })
                    &&& end.index == failing
                    &&& ({
                        let before = all_events(answers.take(failing));
                        let steps = answers[failing].events();
                        let step = answers[failing].failing_step();
                        &&& start.run(before + steps.take(step)).action() is Some
                        &&& start.run(before + steps.take(step + 1)) == end
                    })
                }
            &&& forall|failing: int, count: int|
                #![trigger first_failing(answers, failing), answers.take(count)]
                first_failing(answers, failing) && failing < count <= answers.len() ==> start.run(
                    all_events(answers.take(count)),
                ) == end
        }),
{
    let start = ManifestInstallationView::started(manifests, product_namespace, parameters);
    let total = answers.len() as int;
    assert(answers.take(total) == answers);
    run_of_some_manifests(start, answers, total);
    let end = start.run(all_events(answers));
    if !none_failed(answers, total) {
        some_manifest_fails_first(answers, total);
        let failing = choose|failing: int| first_failing(answers, failing);
        assert(end == start.at(failing).failed(answers[failing].failure()->0));
    }
    assert forall|failing: int| #[trigger] first_failing(answers, failing) implies ({
        let before = all_events(answers.take(failing));
        let steps = answers[failing].events();
        let step = answers[failing].failing_step();
        &&& start.run(before + steps.take(step)).action() is Some
        &&& start.run(before + steps.take(step + 1)) == end
    }) by {
        let before = all_events(answers.take(failing));
        let steps = answers[failing].events();
        let step = answers[failing].failing_step();
        run_of_some_manifests(start, answers, failing);
        run_up_to_failure(start.at(failing), answers[failing]);
        run_in_portions(start, before, steps.take(step));
        run_in_portions(start, before, steps.take(step + 1));
    }
    assert forall|failing: int, count: int|
        #![trigger first_failing(answers, failing), answers.take(count)]
        first_failing(answers, failing) && failing < count <= answers.len() implies start.run(
        all_events(answers.take(count)),
    ) == end by {
        run_of_some_manifests(start, answers, count);
    }
}

/// Where a step of one of the first `count` manifests failed, one of them is the
/// first.
proof fn some_manifest_fails_first(answers: Seq<ManifestAnswers>, count: int)
    requires
        0 <= count <= answers.len(),
        !none_failed(answers, count),
    ensures
        exists|failing: int| first_failing(answers, failing) && failing < count,
    decreases count,
{
    if count > 0 {
        if none_failed(answers, count - 1) {
            assert(first_failing(answers, count - 1));
        } else {
            some_manifest_fails_first(answers, count - 1);
        }
    }
}

/// Whether an installation ended well.
pub open spec fn ended_well(installation: ManifestInstallationView) -> bool {
    installation.phase matches ManifestPhaseView::Finished { outcome: Ok(_) }
}

/// Whether `whole` does what `part` does, `offset` manifests further on.
pub open spec fn in_step(
    whole: ManifestInstallationView,
    part: ManifestInstallationView,
    offset: int,
) -> bool {
    &&& whole.phase == part.phase
    &&& whole.index == part.index + offset
    &&& whole.parameters == part.parameters
    &&& whole.product_namespace == part.product_namespace
}

/// Until the installation of `first` has ended well, that of `first` and then
/// `later` asks for the same and ends as it does.
pub proof fn lists_start_like_their_first_part(
    first: Seq<ManifestSpec>,
    later: Seq<ManifestSpec>,
    product_namespace: Seq<char>,
    parameters: HashMap<String, String>,
    events: Seq<ManifestEvent>,
)
    ensures
        ({
            let whole = ManifestInstallationView::started(
                first + later,
                product_namespace,
                parameters,
            ).run(events);
            let part = ManifestInstallationView::started(
                first,
                product_namespace,
                parameters,
            ).run(events);
            !ended_well(part) ==> in_step(whole, part, 0) && whole.action() == part.action()
        }),
    decreases events.len(),
{
    let whole_start = ManifestInstallationView::started(
        first + later,
        product_namespace,
        parameters,
    );
    let part_start = ManifestInstallationView::started(first, product_namespace, parameters);
    events_keep_installations_well_formed(part_start, events);
    manifests_and_namespace_are_settled(part_start, events);
    manifests_and_namespace_are_settled(whole_start, events);
    if events.len() > 0 {
        let earlier = events.drop_last();
        lists_start_like_their_first_part(first, later, product_namespace, parameters, earlier);
        events_keep_installations_well_formed(part_start, earlier);
        manifests_and_namespace_are_settled(part_start, earlier);
        manifests_and_namespace_are_settled(whole_start, earlier);
        resolved_parameters_are_settled(part_start, earlier);
        let part = part_start.run(earlier);
        let whole = whole_start.run(earlier);
        if !ended_well(part_start.run(events)) {
            assert(!ended_well(part));
            assert(part.index < first.len() ==> whole.manifests[whole.index]
                == part.manifests[part.index]);
        }
    }
    let part = part_start.run(events);
    let whole = whole_start.run(events);
    assert(part.index < first.len() ==> whole.manifests[part.index] == part.manifests[part.index]);
}

/// Two installations that are in step, of which one has the manifests of the
/// other from `offset` on, stay in step and ask for the same.
proof fn in_step_forever(
    whole: ManifestInstallationView,
    part: ManifestInstallationView,
    offset: int,
    events: Seq<ManifestEvent>,
)
    requires
        0 <= offset <= whole.manifests.len(),
        part.manifests == whole.manifests.skip(offset),
        part.well_formed(),
        !(part.phase is ResolveParameters),
        in_step(whole, part, offset),
    ensures
        in_step(whole.run(events), part.run(events), offset),
        whole.run(events).action() == part.run(events).action(),
    decreases events.len(),
{
    events_keep_installations_well_formed(part, events);
    manifests_and_namespace_are_settled(part, events);
    manifests_and_namespace_are_settled(whole, events);
    if events.len() > 0 {
        let earlier = events.drop_last();
        in_step_forever(whole, part, offset, earlier);
        events_keep_installations_well_formed(part, earlier);
        manifests_and_namespace_are_settled(part, earlier);
        manifests_and_namespace_are_settled(whole, earlier);
        resolved_parameters_are_settled(part, earlier);
    }
}

/// From where the installation of `first` has ended well, that of `first` and
/// then `later` asks for what that of `later` alone asks for, and ends as it
/// does. The events up to there are `opening`, and those that follow `events`.
pub proof fn lists_go_on_like_their_later_part(
    first: Seq<ManifestSpec>,
    later: Seq<ManifestSpec>,
    product_namespace: Seq<char>,
    parameters: HashMap<String, String>,
    opening: Seq<ManifestEvent>,
    events: Seq<ManifestEvent>,
)
    requires
        ({
            let part = ManifestInstallationView::started(first, product_namespace, parameters);
            &&& ended_well(part.run(opening))
            &&& opening.len() > 0 ==> !ended_well(part.run(opening.drop_last()))
        }),
    ensures
        ({
            let whole = ManifestInstallationView::started(
                first + later,
                product_namespace,
                parameters,
            ).run(opening + events);
            let part = ManifestInstallationView::started(
                later,
                product_namespace,
                parameters,
            ).run(events);
            in_step(whole, part, first.len() as int) && whole.action() == part.action()
        }),
{
    let all = first + later;
    let whole_start = ManifestInstallationView::started(all, product_namespace, parameters);
    let first_start = ManifestInstallationView::started(first, product_namespace, parameters);
    let later_start = ManifestInstallationView::started(later, product_namespace, parameters);
    let offset = first.len() as int;
    manifests_and_namespace_are_settled(whole_start, opening);
    if opening.len() > 0 {
        let earlier = opening.drop_last();
        lists_start_like_their_first_part(first, later, product_namespace, parameters, earlier);
        events_keep_installations_well_formed(first_start, earlier);
        manifests_and_namespace_are_settled(first_start, earlier);
        manifests_and_namespace_are_settled(whole_start, earlier);
        resolved_parameters_are_settled(first_start, earlier);
    }
    let turn = whole_start.run(opening);
    assert(in_step(turn, later_start, offset));
    assert(all.skip(offset) == later);
    in_step_forever(turn, later_start, offset, events);
    run_in_portions(whole_start, opening, events);
}

} // verus!
