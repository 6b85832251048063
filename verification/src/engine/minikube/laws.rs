//! What holds of every creation of a minikube cluster.
use vstd::prelude::*;

use crate::command::{CommandOutput, ExitReport};
use crate::engine::minikube::{
    existence, MinikubeAction, MinikubeActionView, MinikubeClusterError, MinikubeClusterView,
    MinikubeCreationView, MinikubeEvent, MinikubePhase,
};
use crate::engine::DockerError;
use crate::text::decimal;
use crate::text::laws::{
    all_digits, decimal_notation_reads_back, decimal_notations_tell_numbers_apart, reading,
};

verus! {

/// Whether `event` answers what `phase` asks for.
pub open spec fn awaited(phase: MinikubePhase, event: MinikubeEvent) -> bool {
    match phase {
        MinikubePhase::QueryStatus => event is StatusQueried,
        MinikubePhase::CheckBinaries => event is BinariesChecked,
        MinikubePhase::CheckDocker => event is DockerChecked,
        MinikubePhase::Start => event is Started,
        MinikubePhase::Finished { .. } => false,
    }
}

/// How many answers a creation in `phase` still needs, if none of them ends it
/// early.
pub open spec fn answers_left(phase: MinikubePhase) -> nat {
    match phase {
        MinikubePhase::QueryStatus => 4,
        MinikubePhase::CheckBinaries => 3,
        MinikubePhase::CheckDocker => 2,
        MinikubePhase::Start => 1,
        MinikubePhase::Finished { .. } => 0,
    }
}

/// The outcome of a creation whose steps are answered like this: the error of
/// the first step that failed, if one did.
pub open spec fn creation_outcome(
    binaries_present: bool,
    docker: Result<(), DockerError>,
    started: Result<ExitReport, String>,
) -> Result<(), MinikubeClusterError> {
    if !binaries_present {
        Err(MinikubeClusterError::MissingDepsError)
    } else if docker is Err {
        Err(MinikubeClusterError::DockerError { source: docker->Err_0 })
    } else if started is Err {
        Err(MinikubeClusterError::CmdError { error: started->Err_0 })
    } else if !started->Ok_0.success {
        Err(MinikubeClusterError::CmdError { error: started->Ok_0.description })
    } else {
        Ok(())
    }
}

/// A creation succeeds if and only if all of its steps do and minikube reports
/// success, and otherwise fails with the error of the first step that did not.
pub proof fn creation_fails_as_its_first_failing_step(
    cluster: MinikubeClusterView,
    binaries_present: bool,
    docker: Result<(), DockerError>,
    started: Result<ExitReport, String>,
)
    ensures
        MinikubeCreationView::started(cluster)
            .next(MinikubeEvent::BinariesChecked(binaries_present))
            .next(MinikubeEvent::DockerChecked(docker))
            .next(MinikubeEvent::Started(started))
            .phase == (MinikubePhase::Finished {
            outcome: creation_outcome(binaries_present, docker, started),
        }),
{
}

/// A cluster whose status minikube can report is left alone: its creation ends
/// at once, with success and without anything more to do. Any other cluster is
/// created as if nobody had asked whether it exists. Where minikube cannot be
/// asked, the creation fails with the same error, and nothing is created.
pub proof fn only_absent_clusters_are_created(
    cluster: MinikubeClusterView,
    status: Result<CommandOutput, std::io::Error>,
)
    ensures
        ({
            let queried = MinikubeCreationView::started_if_absent(cluster).next(
                MinikubeEvent::StatusQueried(status),
            );
            match existence(status) {
                Ok(true) => queried.phase == (MinikubePhase::Finished { outcome: Ok(()) })
                    && queried.phase.request(cluster) is None,
                Ok(false) => queried == MinikubeCreationView::started(cluster),
                Err(error) => queried.phase == (MinikubePhase::Finished { outcome: Err(error) })
                    && queried.phase.request(cluster) is None,
            }
        }),
{
}

/// Each answer that was asked for brings the creation closer to its end, and any
/// other event leaves it as it is.
pub proof fn answers_make_progress(creation: MinikubeCreationView, event: MinikubeEvent)
    ensures
        awaited(creation.phase, event) ==> answers_left(creation.next(event).phase)
            < answers_left(creation.phase),
        !awaited(creation.phase, event) ==> creation.next(event) == creation,
        creation.phase.request(creation.cluster) is None <==> answers_left(creation.phase) == 0,
{
}

/// A creation that has ended stays as it ended, whatever happens later.
pub proof fn ended_creation_stays(creation: MinikubeCreationView, events: Seq<MinikubeEvent>)
    requires
        creation.phase is Finished,
    ensures
        creation.run(events) == creation,
    decreases events.len(),
{
    if events.len() > 0 {
        ended_creation_stays(creation, events.drop_last());
    }
}

/// Whether `events` hold, at `checked` and then at `docker`, answers that let a
/// creation go on to start the cluster.
pub open spec fn cleared(events: Seq<MinikubeEvent>, checked: int, docker: int) -> bool {
    &&& 0 <= checked < docker < events.len()
    &&& events[checked] == MinikubeEvent::BinariesChecked(true)
    &&& events[docker] matches MinikubeEvent::DockerChecked(Ok(_))
}

/// Whether the event at `checked` says that all binaries are there.
pub open spec fn binaries_cleared(events: Seq<MinikubeEvent>, checked: int) -> bool {
    &&& 0 <= checked < events.len()
    &&& events[checked] == MinikubeEvent::BinariesChecked(true)
}

/// A cluster is not started before the binaries were found and Docker was seen
/// running.
pub proof fn checks_precede_the_start(cluster: MinikubeClusterView, events: Seq<MinikubeEvent>)
    ensures
        MinikubeCreationView::started_if_absent(cluster).run(events).phase is Start ==> exists|
            checked: int,
            docker: int,
        | cleared(events, checked, docker),
        MinikubeCreationView::started(cluster).run(events).phase is Start ==> exists|
            checked: int,
            docker: int,
        | cleared(events, checked, docker),
{
    checks_precede_from(MinikubeCreationView::started_if_absent(cluster), events);
    checks_precede_from(MinikubeCreationView::started(cluster), events);
}

proof fn checks_precede_from(start: MinikubeCreationView, events: Seq<MinikubeEvent>)
    requires
        start.phase is QueryStatus || start.phase is CheckBinaries,
    ensures
        start.run(events).phase is CheckDocker ==> exists|checked: int|
            binaries_cleared(events, checked),
        start.run(events).phase is Start ==> exists|checked: int, docker: int|
            cleared(events, checked, docker),
    decreases events.len(),
{
    if events.len() > 0 {
        let earlier = events.drop_last();
        checks_precede_from(start, earlier);
        let before = start.run(earlier).phase;
        let after = start.run(events).phase;
        let last = events.len() - 1;
        if after is CheckDocker {
            if before is CheckDocker {
                let checked = choose|checked: int| binaries_cleared(earlier, checked);
                assert(binaries_cleared(events, checked));
            } else {
                assert(binaries_cleared(events, last));
            }
        }
        if after is Start {
            if before is Start {
                let (checked, docker) = choose|checked: int, docker: int|
                    cleared(earlier, checked, docker);
                assert(cleared(events, checked, docker));
            } else {
                let checked = choose|checked: int| binaries_cleared(earlier, checked);
                assert(cleared(events, checked, last));
            }
        }
    }
}

/// The cluster is started with as many nodes as it was described with, and under
/// its name: the argument after `--nodes` is made of digits and reads back as the
/// number of nodes, and the argument after `-p` is the name.
pub proof fn clusters_are_started_as_described(node_count: usize, name: Seq<char>)
    ensures
        ({
            let cluster = MinikubeClusterView { node_count, name };
            let checked = MinikubeCreationView::started(cluster)
                .next(MinikubeEvent::BinariesChecked(true))
                .next(MinikubeEvent::DockerChecked(Ok(())));
            &&& checked.phase.request(checked.cluster) matches Some(
                MinikubeActionView::Start(command),
            )
            &&& command.program == "minikube"@
            &&& command.args.len() == 7
            &&& command.args[0] == "start"@
            &&& command.args[1] == "--driver"@
            &&& command.args[2] == "docker"@
            &&& command.args[3] == "--nodes"@
            &&& all_digits(command.args[4])
            &&& reading(command.args[4]) == node_count
            &&& command.args[4][0] == '0' ==> node_count == 0 && command.args[4].len() == 1
            &&& command.args[5] == "-p"@
            &&& command.args[6] == name
        }),
{
    decimal_notation_reads_back(node_count as nat);
}

/// Two clusters that differ in their name or in their number of nodes are not
/// started by the same command.
pub proof fn start_commands_tell_clusters_apart(
    one: MinikubeClusterView,
    other: MinikubeClusterView,
)
    ensures
        MinikubePhase::Start.request(one) == MinikubePhase::Start.request(other) ==> one == other,
{
    decimal_notations_tell_numbers_apart(one.node_count as nat, other.node_count as nat);
    let command = MinikubePhase::Start.request(one)->0->Start_0;
    let same = MinikubePhase::Start.request(other)->0->Start_0;
    assert(command.args[4] == decimal(one.node_count as nat));
    assert(same.args[4] == decimal(other.node_count as nat));
    assert(command.args[6] == one.name);
    assert(same.args[6] == other.name);
}

/// While nothing fails, a creation looks for Docker and minikube, checks Docker
/// and starts the cluster, in this order. The cluster stays the one that was
/// asked for.
pub proof fn creations_take_one_step_after_another(cluster: MinikubeClusterView)
    ensures
        ({
            let start = MinikubeCreationView::started(cluster);
            let found = start.next(MinikubeEvent::BinariesChecked(true));
            let running = found.next(MinikubeEvent::DockerChecked(Ok(())));
            &&& start.phase.request(cluster) matches Some(
                MinikubeActionView::CheckBinaries(binaries),
            ) && binaries == seq!["docker"@, "minikube"@]
            &&& found.phase.request(cluster) == Some(MinikubeActionView::CheckDocker)
            &&& running.phase.request(cluster) matches Some(MinikubeActionView::Start(_))
            &&& running.cluster == cluster
        }),
{
}

/// A step that fails ends the creation at once, with the error that says so; so
/// does the end of minikube, which decides whether the creation succeeded.
pub proof fn failing_steps_end_the_creation(
    creation: MinikubeCreationView,
    docker: DockerError,
    unrun: String,
    report: ExitReport,
)
    ensures
        creation.phase is CheckBinaries ==> creation.next(
            MinikubeEvent::BinariesChecked(false),
        ).phase == (MinikubePhase::Finished {
            outcome: Err(MinikubeClusterError::MissingDepsError),
        }),
        creation.phase is CheckDocker ==> creation.next(
            MinikubeEvent::DockerChecked(Err(docker)),
        ).phase == (MinikubePhase::Finished {
            outcome: Err(MinikubeClusterError::DockerError { source: docker }),
        }),
        creation.phase is Start ==> creation.next(MinikubeEvent::Started(Err(unrun))).phase == (
        MinikubePhase::Finished { outcome: Err(MinikubeClusterError::CmdError { error: unrun }) }),
        creation.phase is Start && !report.success ==> creation.next(
            MinikubeEvent::Started(Ok(report)),
        ).phase == (MinikubePhase::Finished {
            outcome: Err(MinikubeClusterError::CmdError { error: report.description }),
        }),
        creation.phase is Start && report.success ==> (creation.next(
            MinikubeEvent::Started(Ok(report)),
        ).phase matches MinikubePhase::Finished { outcome: Ok(_) }),
        creation.phase is Finished <==> creation.phase.request(creation.cluster) is None,
{
}

/// An event that is no answer to what the creation asks for changes nothing.
pub proof fn unasked_events_change_nothing(creation: MinikubeCreationView, event: MinikubeEvent)
    requires
        match creation.phase.request(creation.cluster) {
            Some(MinikubeActionView::QueryStatus(_)) => !(event is StatusQueried),
            Some(MinikubeActionView::CheckBinaries(_)) => !(event is BinariesChecked),
            Some(MinikubeActionView::CheckDocker) => !(event is DockerChecked),
            Some(MinikubeActionView::Start(_)) => !(event is Started),
            None => true,
        },
    ensures
        creation.next(event) == creation,
{
}

/// Minikube is asked about the cluster by its name, and the cluster exists if and
/// only if that command reports success, whatever it prints: the creation has then
/// ended well with nothing to do. Otherwise it goes on like one that never asked,
/// or fails because minikube could not be asked.
pub proof fn reported_clusters_are_not_created(
    cluster: MinikubeClusterView,
    output: CommandOutput,
    source: std::io::Error,
)
    ensures
        ({
            let start = MinikubeCreationView::started_if_absent(cluster);
            let queried = start.next(MinikubeEvent::StatusQueried(Ok(output)));
            let unasked = start.next(MinikubeEvent::StatusQueried(Err(source)));
            &&& start.phase.request(cluster) matches Some(MinikubeActionView::QueryStatus(command))
                && command.program == "minikube"@ && command.args == seq![
                "status"@,
                "-p"@,
                cluster.name,
                "-o"@,
                "json"@,
            ]
            &&& output.success ==> (queried.phase matches MinikubePhase::Finished {
                outcome: Ok(_),
            })
            &&& output.success ==> queried.phase.request(cluster) is None
            &&& !output.success ==> queried.phase is CheckBinaries
            &&& !output.success ==> queried == MinikubeCreationView::started(cluster)
            &&& unasked.phase == (MinikubePhase::Finished {
                outcome: Err(MinikubeClusterError::IoError { source }),
            })
            &&& existence(Ok(output)) == Ok::<bool, MinikubeClusterError>(output.success)
            &&& existence(Err(source)) == Err::<bool, MinikubeClusterError>(
                MinikubeClusterError::IoError { source },
            )
        }),
{
}

/// Each error is described in its own words, and an error that quotes a text
/// ends with that text.
pub proof fn errors_are_described_in_words(
    error: String,
    docker: DockerError,
    io: std::io::Error,
)
    ensures
        MinikubeClusterError::MissingDepsError.text() == "missing dependencies"@,
        (MinikubeClusterError::CmdError { error }).text() == "command error: "@ + error@,
        (MinikubeClusterError::DockerError { source: docker }).text() == "Docker error"@,
        (MinikubeClusterError::IoError { source: io }).text() == "io error"@,
{
}

/// What an action asks for is told apart by its view, with every text that it
/// holds.
pub proof fn actions_show_what_they_hold(action: MinikubeAction)
    ensures
        match action {
            MinikubeAction::QueryStatus { command } => action@ == MinikubeActionView::QueryStatus(
                command@,
            ),
            MinikubeAction::CheckBinaries { binaries } => {
                &&& action@ matches MinikubeActionView::CheckBinaries(names)
                &&& names.len() == binaries@.len()
                &&& forall|i: int| 0 <= i < names.len() ==> #[trigger] names[i] == binaries@[i]@
            },
            MinikubeAction::CheckDocker => action@ is CheckDocker,
            MinikubeAction::Start { command } => action@ == MinikubeActionView::Start(command@),
        },
{
}

} // verus!
