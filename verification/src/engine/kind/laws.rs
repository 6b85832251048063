//! What holds of every creation of a kind cluster.
use vstd::prelude::*;

use crate::command::{CommandOutput, ExitReport};
use crate::engine::kind::{
    existence, outcome_view, KindAction, KindActionView, KindClusterError, KindClusterErrorView,
    KindClusterView, KindCreationView, KindEvent, KindPhaseView,
};
use crate::engine::DockerError;
use crate::outside::utf8_lossy;
use crate::text::laws::{
    can_be_listed, lines_stand_between_line_ends, listed_names_are_the_lines, listing, stands_at,
};

verus! {

/// Whether `event` answers what `phase` asks for.
pub open spec fn awaited(phase: KindPhaseView, event: KindEvent) -> bool {
    match phase {
        KindPhaseView::ListClusters => event is Listed,
        KindPhaseView::CheckBinaries => event is BinariesChecked,
        KindPhaseView::CheckDocker => event is DockerChecked,
        KindPhaseView::RenderConfig => event is ConfigRendered,
        KindPhaseView::Spawn(_) => event is Spawned,
        KindPhaseView::TakeStdin(_) => event is StdinTaken,
        KindPhaseView::WriteConfig(_) => event is Written,
        KindPhaseView::Flush => event is Flushed,
        KindPhaseView::CloseStdin => event is StdinClosed,
        KindPhaseView::Wait => event is Exited,
        KindPhaseView::Finished(_) => false,
    }
}

/// How many answers a creation in `phase` still needs, if none of them ends it
/// early.
pub open spec fn answers_left(phase: KindPhaseView) -> nat {
    match phase {
        KindPhaseView::ListClusters => 10,
        KindPhaseView::CheckBinaries => 9,
        KindPhaseView::CheckDocker => 8,
        KindPhaseView::RenderConfig => 7,
        KindPhaseView::Spawn(_) => 6,
        KindPhaseView::TakeStdin(_) => 5,
        KindPhaseView::WriteConfig(_) => 4,
        KindPhaseView::Flush => 3,
        KindPhaseView::CloseStdin => 2,
        KindPhaseView::Wait => 1,
        KindPhaseView::Finished(_) => 0,
    }
}

/// The outcome of a creation whose steps are answered like this: the error of
/// the first step that failed, if one did.
pub open spec fn creation_outcome(
    missing: Option<String>,
    docker: Result<(), DockerError>,
    rendered: Result<String, serde_yaml::Error>,
    spawned: Result<(), std::io::Error>,
    stdin_taken: bool,
    written: Result<(), std::io::Error>,
    flushed: Result<(), std::io::Error>,
    exited: Result<ExitReport, String>,
) -> Result<(), KindClusterErrorView> {
    if missing is Some {
        Err(KindClusterErrorView::MissingBinary(missing->0@))
    } else if docker is Err {
        Err(KindClusterErrorView::Docker(docker->Err_0))
    } else if rendered is Err {
        Err(KindClusterErrorView::Yaml(rendered->Err_0))
    } else if spawned is Err {
        Err(KindClusterErrorView::Io(spawned->Err_0))
    } else if !stdin_taken {
        Err(KindClusterErrorView::Stdin)
    } else if written is Err {
        Err(KindClusterErrorView::Io(written->Err_0))
    } else if flushed is Err {
        Err(KindClusterErrorView::Io(flushed->Err_0))
    } else if exited is Err {
        Err(KindClusterErrorView::KindCommand(exited->Err_0@))
    } else if !exited->Ok_0.success {
        Err(KindClusterErrorView::KindCommand(exited->Ok_0.description@))
    } else {
        Ok(())
    }
}

/// A creation succeeds if and only if all of its steps do and kind reports
/// success, and otherwise fails with the error of the first step that did not.
pub proof fn creation_fails_as_its_first_failing_step(
    cluster: KindClusterView,
    missing: Option<String>,
    docker: Result<(), DockerError>,
    rendered: Result<String, serde_yaml::Error>,
    spawned: Result<(), std::io::Error>,
    stdin_taken: bool,
    written: Result<(), std::io::Error>,
    flushed: Result<(), std::io::Error>,
    exited: Result<ExitReport, String>,
)
    ensures
        KindCreationView::started(cluster)
            .next(KindEvent::BinariesChecked(missing))
            .next(KindEvent::DockerChecked(docker))
            .next(KindEvent::ConfigRendered(rendered))
            .next(KindEvent::Spawned(spawned))
            .next(KindEvent::StdinTaken(stdin_taken))
            .next(KindEvent::Written(written))
            .next(KindEvent::Flushed(flushed))
            .next(KindEvent::StdinClosed)
            .next(KindEvent::Exited(exited))
            .phase == KindPhaseView::Finished(
            creation_outcome(
                missing,
                docker,
                rendered,
                spawned,
                stdin_taken,
                written,
                flushed,
                exited,
            ),
        ),
{
}

/// A cluster that kind lists is left alone: its creation ends at once, with
/// success and without anything more to do. One that kind does not list is
/// created as if nobody had asked whether it exists. Where the listing fails, the
/// creation fails with the same error, and nothing is created.
pub proof fn only_absent_clusters_are_created(
    cluster: KindClusterView,
    listing: Result<CommandOutput, std::io::Error>,
)
    ensures
        ({
            let listed = KindCreationView::started_if_absent(cluster).next(
                KindEvent::Listed(listing),
            );
            match existence(cluster.name, listing) {
                Ok(true) => listed.phase == KindPhaseView::Finished(Ok(())) && listed.phase.action(
                    cluster,
                ) is None,
                Ok(false) => listed == KindCreationView::started(cluster),
                Err(error) => listed.phase == KindPhaseView::Finished(Err(error))
                    && listed.phase.action(cluster) is None,
            }
        }),
{
}

/// Each answer that was asked for brings the creation closer to its end, and any
/// other event leaves it as it is.
pub proof fn answers_make_progress(creation: KindCreationView, event: KindEvent)
    ensures
        awaited(creation.phase, event) ==> answers_left(creation.next(event).phase)
            < answers_left(creation.phase),
        !awaited(creation.phase, event) ==> creation.next(event) == creation,
        creation.phase.action(creation.cluster) is None <==> answers_left(creation.phase) == 0,
{
}

/// A creation that has ended stays as it ended, whatever happens later.
pub proof fn ended_creation_stays(creation: KindCreationView, events: Seq<KindEvent>)
    requires
        creation.phase is Finished,
    ensures
        creation.run(events) == creation,
    decreases events.len(),
{
    if events.len() > 0 {
        ended_creation_stays(creation, events.drop_last());
    }
}

/// Whether `checked` comes before `docker`, and that before `rendered`, among
/// `events`, with answers that let a creation go on to write `config`.
pub open spec fn cleared(
    events: Seq<KindEvent>,
    checked: int,
    docker: int,
    rendered: int,
    config: Seq<char>,
) -> bool {
    &&& 0 <= checked < docker < rendered < events.len()
    &&& events[checked] == KindEvent::BinariesChecked(None)
    &&& events[docker] matches KindEvent::DockerChecked(Ok(_))
    &&& events[rendered] matches KindEvent::ConfigRendered(Ok(text)) && text@ == config
}

/// The configuration that a creation in `phase` is about to hand to kind.
pub open spec fn pending_config(phase: KindPhaseView) -> Option<Seq<char>> {
    match phase {
        KindPhaseView::Spawn(config) => Some(config),
        KindPhaseView::TakeStdin(config) => Some(config),
        KindPhaseView::WriteConfig(config) => Some(config),
        _ => None,
    }
}

/// Whether `events` hold answers that let a creation go on to render the
/// configuration.
pub open spec fn docker_cleared(events: Seq<KindEvent>, checked: int, docker: int) -> bool {
    &&& 0 <= checked < docker < events.len()
    &&& events[checked] == KindEvent::BinariesChecked(None)
    &&& events[docker] matches KindEvent::DockerChecked(Ok(_))
}

/// Whether the event at `checked` says that no binary is missing.
pub open spec fn binaries_cleared(events: Seq<KindEvent>, checked: int) -> bool {
    &&& 0 <= checked < events.len()
    &&& events[checked] == KindEvent::BinariesChecked(None)
}

/// Kind is not spawned, and nothing is written to it, before the binaries were
/// found and Docker was seen running; and what is written to it is the
/// configuration that was rendered after that.
pub proof fn checks_precede_the_kind_process(cluster: KindClusterView, events: Seq<KindEvent>)
    ensures
        ({
            let phase = KindCreationView::started_if_absent(cluster).run(events).phase;
            pending_config(phase) is Some ==> exists|checked: int, docker: int, rendered: int|
                cleared(events, checked, docker, rendered, pending_config(phase)->0)
        }),
        ({
            let phase = KindCreationView::started(cluster).run(events).phase;
            pending_config(phase) is Some ==> exists|checked: int, docker: int, rendered: int|
                cleared(events, checked, docker, rendered, pending_config(phase)->0)
        }),
{
    checks_precede_from(KindCreationView::started_if_absent(cluster), events);
    checks_precede_from(KindCreationView::started(cluster), events);
}

proof fn checks_precede_from(start: KindCreationView, events: Seq<KindEvent>)
    requires
        start.phase is ListClusters || start.phase is CheckBinaries,
    ensures
        ({
            let phase = start.run(events).phase;
            &&& phase is CheckDocker ==> exists|checked: int| binaries_cleared(events, checked)
            &&& phase is RenderConfig ==> exists|checked: int, docker: int|
                docker_cleared(events, checked, docker)
            &&& pending_config(phase) is Some ==> exists|checked: int, docker: int, rendered: int|
                cleared(events, checked, docker, rendered, pending_config(phase)->0)
        }),
    decreases events.len(),
{
    if events.len() > 0 {
        let earlier = events.drop_last();
        checks_precede_from(start, earlier);
        let before = start.run(earlier).phase;
        let after = start.run(events).phase;
        let last = events.len() - 1;
        if after is CheckDocker {
            if before is CheckDocker {
                let checked = choose|checked: int| binaries_cleared(earlier, checked);
                assert(binaries_cleared(events, checked));
            } else {
                assert(binaries_cleared(events, last));
            }
        }
        if after is RenderConfig {
            if before is RenderConfig {
                let (checked, docker) = choose|checked: int, docker: int|
                    docker_cleared(earlier, checked, docker);
                assert(docker_cleared(events, checked, docker));
            } else {
                let checked = choose|checked: int| binaries_cleared(earlier, checked);
                assert(docker_cleared(events, checked, last));
            }
        }
        if pending_config(after) is Some {
            let config = pending_config(after)->0;
            if pending_config(before) is Some {
                let (checked, docker, rendered) = choose|checked: int, docker: int, rendered: int|
                    cleared(earlier, checked, docker, rendered, config);
                assert(cleared(events, checked, docker, rendered, config));
            } else {
                let (checked, docker) = choose|checked: int, docker: int|
                    docker_cleared(earlier, checked, docker);
                assert(cleared(events, checked, docker, last, config));
            }
        }
    }
}

/// Whether the event at `written` says that the configuration was written.
pub open spec fn config_written(events: Seq<KindEvent>, written: int) -> bool {
    &&& 0 <= written < events.len()
    &&& events[written] matches KindEvent::Written(Ok(_))
}

/// Whether the configuration was written at `written` and flushed at `flushed`.
pub open spec fn config_flushed(events: Seq<KindEvent>, written: int, flushed: int) -> bool {
    &&& config_written(events, written)
    &&& written < flushed < events.len()
    &&& events[flushed] matches KindEvent::Flushed(Ok(_))
}

/// Whether the configuration was written at `written` and flushed at `flushed`,
/// and the input of kind closed at `closed`.
pub open spec fn config_handed_over(
    events: Seq<KindEvent>,
    written: int,
    flushed: int,
    closed: int,
) -> bool {
    &&& config_flushed(events, written, flushed)
    &&& flushed < closed < events.len()
    &&& events[closed] is StdinClosed
}

/// Nobody waits for kind before its whole input was written and flushed and then
/// closed: kind would otherwise wait for more of it.
pub proof fn input_is_closed_before_the_wait(cluster: KindClusterView, events: Seq<KindEvent>)
    ensures
        KindCreationView::started_if_absent(cluster).run(events).phase is Wait ==> exists|
            written: int,
            flushed: int,
            closed: int,
        | config_handed_over(events, written, flushed, closed),
        KindCreationView::started(cluster).run(events).phase is Wait ==> exists|
            written: int,
            flushed: int,
            closed: int,
        | config_handed_over(events, written, flushed, closed),
{
    input_is_closed_from(KindCreationView::started_if_absent(cluster), events);
    input_is_closed_from(KindCreationView::started(cluster), events);
}

proof fn input_is_closed_from(start: KindCreationView, events: Seq<KindEvent>)
    requires
        start.phase is ListClusters || start.phase is CheckBinaries,
    ensures
        start.run(events).phase is Flush ==> exists|written: int| config_written(events, written),
        start.run(events).phase is CloseStdin ==> exists|written: int, flushed: int|
            config_flushed(events, written, flushed),
        start.run(events).phase is Wait ==> exists|written: int, flushed: int, closed: int|
            config_handed_over(events, written, flushed, closed),
    decreases events.len(),
{
    if events.len() > 0 {
        let earlier = events.drop_last();
        input_is_closed_from(start, earlier);
        let before = start.run(earlier).phase;
        let after = start.run(events).phase;
        let last = events.len() - 1;
        if after is Flush {
            if before is Flush {
                let written = choose|written: int| config_written(earlier, written);
                assert(config_written(events, written));
            } else {
                assert(config_written(events, last));
            }
        }
        if after is CloseStdin {
            if before is CloseStdin {
                let (written, flushed) = choose|written: int, flushed: int|
                    config_flushed(earlier, written, flushed);
                assert(config_flushed(events, written, flushed));
            } else {
                let written = choose|written: int| config_written(earlier, written);
                assert(config_flushed(events, written, last));
            }
        }
        if after is Wait {
            if before is Wait {
                let (written, flushed, closed) = choose|written: int, flushed: int, closed: int|
                    config_handed_over(earlier, written, flushed, closed);
                assert(config_handed_over(events, written, flushed, closed));
            } else {
                let (written, flushed) = choose|written: int, flushed: int|
                    config_flushed(earlier, written, flushed);
                assert(config_handed_over(events, written, flushed, last));
            }
        }
    }
}

/// A cluster of `node_count` nodes, of which `cp_node_count` are control plane
/// nodes, gets a configuration with exactly these numbers, once the binaries were
/// found and Docker was seen running.
pub proof fn configurations_have_the_nodes_asked_for(
    node_count: usize,
    cp_node_count: usize,
    name: Seq<char>,
)
    ensures
        ({
            let cluster = KindClusterView { node_count, cp_node_count, name };
            let checked = KindCreationView::started(cluster)
                .next(KindEvent::BinariesChecked(None))
                .next(KindEvent::DockerChecked(Ok(())));
            checked.phase.action(checked.cluster) matches Some(
                KindActionView::RenderConfig { node_count: nodes, cp_node_count: cp_nodes },
            ) && nodes == node_count && cp_nodes == cp_node_count
        }),
{
}

/// While nothing fails, a creation looks for Docker and kind, checks Docker, has
/// the configuration rendered, spawns kind for a cluster of the right name,
/// writes the rendered configuration to it, flushes and closes its input, and
/// waits for it, in this order. The cluster stays the one that was asked for.
pub proof fn creations_take_one_step_after_another(cluster: KindClusterView, config: String)
    ensures
        ({
            let start = KindCreationView::started(cluster);
            let found = start.next(KindEvent::BinariesChecked(None));
            let running = found.next(KindEvent::DockerChecked(Ok(())));
            let rendered = running.next(KindEvent::ConfigRendered(Ok(config)));
            let spawned = rendered.next(KindEvent::Spawned(Ok(())));
            let taken = spawned.next(KindEvent::StdinTaken(true));
            let written = taken.next(KindEvent::Written(Ok(())));
            let flushed = written.next(KindEvent::Flushed(Ok(())));
            let closed = flushed.next(KindEvent::StdinClosed);
            &&& start.phase.action(cluster) matches Some(KindActionView::CheckBinaries(binaries))
                && binaries == seq!["docker"@, "kind"@]
            &&& found.phase.action(cluster) == Some(KindActionView::CheckDocker)
            &&& running.phase.action(cluster) == Some(
                KindActionView::RenderConfig {
                    node_count: cluster.node_count,
                    cp_node_count: cluster.cp_node_count,
                },
            )
            &&& rendered.phase.action(cluster) matches Some(KindActionView::Spawn(command))
                && command.program == "kind"@ && command.args == seq![
                "create"@,
                "cluster"@,
                "--name"@,
                cluster.name,
                "--config"@,
                "-"@,
            ]
            &&& spawned.phase.action(cluster) == Some(KindActionView::TakeStdin)
            &&& taken.phase.action(cluster) == Some(KindActionView::WriteConfig(config@))
            &&& written.phase.action(cluster) == Some(KindActionView::Flush)
            &&& flushed.phase.action(cluster) == Some(KindActionView::CloseStdin)
            &&& closed.phase.action(cluster) == Some(KindActionView::Wait)
            &&& closed.cluster == cluster
        }),
{
}

/// A step that fails ends the creation at once, with the error that says so; so
/// does the end of kind, which decides whether the creation succeeded.
pub proof fn failing_steps_end_the_creation(
    creation: KindCreationView,
    binary: String,
    docker: DockerError,
    yaml: serde_yaml::Error,
    io: std::io::Error,
    waited: String,
    report: ExitReport,
)
    ensures
        creation.phase is CheckBinaries ==> creation.next(
            KindEvent::BinariesChecked(Some(binary)),
        ).phase == KindPhaseView::Finished(Err(KindClusterErrorView::MissingBinary(binary@))),
        creation.phase is CheckDocker ==> creation.next(KindEvent::DockerChecked(Err(docker))).phase
            == KindPhaseView::Finished(Err(KindClusterErrorView::Docker(docker))),
        creation.phase is RenderConfig ==> creation.next(KindEvent::ConfigRendered(Err(yaml))).phase
            == KindPhaseView::Finished(Err(KindClusterErrorView::Yaml(yaml))),
        creation.phase is Spawn ==> creation.next(KindEvent::Spawned(Err(io))).phase
            == KindPhaseView::Finished(Err(KindClusterErrorView::Io(io))),
        creation.phase is TakeStdin ==> creation.next(KindEvent::StdinTaken(false)).phase
            == KindPhaseView::Finished(Err(KindClusterErrorView::Stdin)),
        creation.phase is WriteConfig ==> creation.next(KindEvent::Written(Err(io))).phase
            == KindPhaseView::Finished(Err(KindClusterErrorView::Io(io))),
        creation.phase is Flush ==> creation.next(KindEvent::Flushed(Err(io))).phase
            == KindPhaseView::Finished(Err(KindClusterErrorView::Io(io))),
        creation.phase is Wait ==> creation.next(KindEvent::Exited(Err(waited))).phase
            == KindPhaseView::Finished(Err(KindClusterErrorView::KindCommand(waited@))),
        creation.phase is Wait && !report.success ==> creation.next(
            KindEvent::Exited(Ok(report)),
        ).phase == KindPhaseView::Finished(
            Err(KindClusterErrorView::KindCommand(report.description@)),
        ),
        creation.phase is Wait && report.success ==> (creation.next(
            KindEvent::Exited(Ok(report)),
        ).phase matches KindPhaseView::Finished(Ok(_))),
        creation.phase is Finished <==> creation.phase.action(creation.cluster) is None,
{
}

/// An event that is no answer to what the creation asks for changes nothing.
pub proof fn unasked_events_change_nothing(creation: KindCreationView, event: KindEvent)
    requires
        match creation.phase.action(creation.cluster) {
            Some(KindActionView::List(_)) => !(event is Listed),
            Some(KindActionView::CheckBinaries(_)) => !(event is BinariesChecked),
            Some(KindActionView::CheckDocker) => !(event is DockerChecked),
            Some(KindActionView::RenderConfig { .. }) => !(event is ConfigRendered),
            Some(KindActionView::Spawn(_)) => !(event is Spawned),
            Some(KindActionView::TakeStdin) => !(event is StdinTaken),
            Some(KindActionView::WriteConfig(_)) => !(event is Written),
            Some(KindActionView::Flush) => !(event is Flushed),
            Some(KindActionView::CloseStdin) => !(event is StdinClosed),
            Some(KindActionView::Wait) => !(event is Exited),
            None => true,
        },
    ensures
        creation.next(event) == creation,
{
}

/// Whether a cluster exists is asked of `kind get clusters`, and decided by the
/// names that it lists: the creation of a cluster among them has ended well with
/// nothing to do, and that of any other one goes on like one that never asked.
pub proof fn listed_clusters_are_not_created(
    cluster: KindClusterView,
    output: CommandOutput,
    names: Seq<Seq<char>>,
)
    requires
        output.success,
        can_be_listed(names),
        utf8_lossy(output.stdout@) == listing(names),
    ensures
        ({
            let start = KindCreationView::started_if_absent(cluster);
            let listed = start.next(KindEvent::Listed(Ok(output)));
            let among = exists|i: int| 0 <= i < names.len() && names[i] == cluster.name;
            &&& start.phase.action(cluster) matches Some(KindActionView::List(command))
                && command.program == "kind"@ && command.args == seq!["get"@, "clusters"@]
            &&& among ==> (listed.phase matches KindPhaseView::Finished(Ok(_)))
            &&& among ==> listed.phase.action(cluster) is None
            &&& !among ==> listed == KindCreationView::started(cluster)
            &&& existence(cluster.name, Ok(output)) == Ok::<bool, KindClusterErrorView>(among)
        }),
{
    listed_names_are_the_lines(names, cluster.name);
}

/// Whatever kind printed, a cluster is found in it if and only if its name
/// stands there between two line ends. A listing that failed, or that could not
/// be obtained, ends the creation with an error that says why.
pub proof fn listings_decide_what_exists(
    cluster: KindClusterView,
    output: CommandOutput,
    source: std::io::Error,
)
    ensures
        ({
            let start = KindCreationView::started_if_absent(cluster);
            let listed = start.next(KindEvent::Listed(Ok(output)));
            let found = exists|place: int|
                stands_at(utf8_lossy(output.stdout@), cluster.name, place);
            &&& output.success && found ==> (listed.phase matches KindPhaseView::Finished(Ok(_)))
            &&& output.success && !found ==> listed == KindCreationView::started(cluster)
            &&& !output.success ==> listed.phase == KindPhaseView::Finished(
                Err(KindClusterErrorView::KindCommand(utf8_lossy(output.stderr@))),
            )
            &&& start.next(KindEvent::Listed(Err(source))).phase == KindPhaseView::Finished(
                Err(KindClusterErrorView::Io(source)),
            )
        }),
{
    lines_stand_between_line_ends(utf8_lossy(output.stdout@), cluster.name);
}

/// Each error is described in its own words, and an error that quotes a text
/// ends with that text.
pub proof fn errors_are_described_in_words(
    io: std::io::Error,
    text: Seq<char>,
    docker: DockerError,
    yaml: serde_yaml::Error,
)
    ensures
        KindClusterErrorView::Io(io).message() == "io error"@,
        KindClusterErrorView::Stdin.message() == "no stdin error"@,
        KindClusterErrorView::KindCommand(text).message() == "kind command error: "@ + text,
        KindClusterErrorView::MissingBinary(text).message() == "missing required binary: "@ + text,
        KindClusterErrorView::Docker(docker).message() == "docker error"@,
        KindClusterErrorView::Yaml(yaml).message() == "failed to covert kind config to yaml"@,
{
}

/// What an action asks for is told apart by its view, with every number and text
/// that it holds.
pub proof fn actions_show_what_they_hold(action: KindAction<'_>)
    ensures
        match action {
            KindAction::List { command } => action@ == KindActionView::List(command@),
            KindAction::CheckBinaries { binaries } => {
                &&& action@ matches KindActionView::CheckBinaries(names)
                &&& names.len() == binaries@.len()
                &&& forall|i: int| 0 <= i < names.len() ==> #[trigger] names[i] == binaries@[i]@
            },
            KindAction::CheckDocker => action@ is CheckDocker,
            KindAction::RenderConfig { node_count, cp_node_count } => {
                &&& action@ matches KindActionView::RenderConfig {
                    node_count: nodes,
                    cp_node_count: cp_nodes,
                }
                &&& nodes == node_count
                &&& cp_nodes == cp_node_count
            },
            KindAction::Spawn { command } => action@ == KindActionView::Spawn(command@),
            KindAction::TakeStdin => action@ is TakeStdin,
            KindAction::WriteConfig { config } => action@ == KindActionView::WriteConfig(config@),
            KindAction::Flush => action@ is Flush,
            KindAction::CloseStdin => action@ is CloseStdin,
            KindAction::Wait => action@ is Wait,
        },
{
}

/// How a creation ended is told apart by its view: success from failure, and each
/// error with what it holds.
pub proof fn outcomes_show_what_they_hold(outcome: Result<(), KindClusterError>)
    ensures
        match outcome {
            Ok(_) => outcome_view(outcome) is Ok,
            Err(error) => outcome_view(outcome) matches Err(shown) && match error {
                KindClusterError::IoError { source } => shown == KindClusterErrorView::Io(source),
                KindClusterError::StdinError => shown is Stdin,
                KindClusterError::KindCommandError { error } => shown
                    == KindClusterErrorView::KindCommand(error@),
                KindClusterError::MissingBinaryError { binary } => shown
                    == KindClusterErrorView::MissingBinary(binary@),
                KindClusterError::DockerError { source } => shown == KindClusterErrorView::Docker(
                    source,
                ),
                KindClusterError::YamlError { source } => shown == KindClusterErrorView::Yaml(
                    source,
                ),
            },
        },
{
}

} // verus!
