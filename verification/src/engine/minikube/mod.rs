//! Local clusters that are run by minikube.
use vstd::prelude::*;

use crate::command::{CommandLine, CommandLineView, CommandOutput, ExitReport};
use crate::constants::DEFAULT_LOCAL_CLUSTER_NAME;
use crate::engine::DockerError;
use crate::text::{decimal, number_text};

pub mod laws;

verus! {

/// Why a minikube cluster could not be created.
#[allow(inconsistent_fields)]
#[derive(Debug)]
pub enum MinikubeClusterError {
    /// A binary that is needed is not installed.
    MissingDepsError,
    /// The minikube command failed, or could not be run, and this is why.
    CmdError { error: String },
    /// Docker is not available.
    DockerError { source: DockerError },
    /// An operation of the operating system failed.
    IoError { source: std::io::Error },
}

impl MinikubeClusterError {
    /// The text that describes the error to a user.
    pub open spec fn text(self) -> Seq<char> {
        match self {
            MinikubeClusterError::MissingDepsError => "missing dependencies"@,
            MinikubeClusterError::CmdError { error } => "command error: "@ + error@,
            MinikubeClusterError::DockerError { .. } => "Docker error"@,
            MinikubeClusterError::IoError { .. } => "io error"@,
        }
    }

    /// Describes the error to a user.
    pub fn message(&self) -> (text: String)
        ensures
            text@ == self.text(),
            match *self {
                MinikubeClusterError::MissingDepsError => text@ == "missing dependencies"@,
                MinikubeClusterError::CmdError { error } => text@ == "command error: "@ + error@,
                MinikubeClusterError::DockerError { .. } => text@ == "Docker error"@,
                MinikubeClusterError::IoError { .. } => text@ == "io error"@,
            },
    {
        match self {
            MinikubeClusterError::MissingDepsError => "missing dependencies".to_owned(),
            MinikubeClusterError::CmdError { error } => {
                "command error: ".to_owned().concat(error.as_str())
            },
            MinikubeClusterError::DockerError { .. } => "Docker error".to_owned(),
            MinikubeClusterError::IoError { .. } => "io error".to_owned(),
        }
    }
}

/// A cluster that minikube runs, or is meant to run.
#[derive(Debug)]
pub struct MinikubeCluster {
    node_count: usize,
    name: String,
}

/// What a [`MinikubeCluster`] says of the cluster.
pub struct MinikubeClusterView {
    /// The number of nodes.
    pub node_count: usize,
    /// The name of the cluster.
    pub name: Seq<char>,
}

impl View for MinikubeCluster {
    type V = MinikubeClusterView;

    closed spec fn view(&self) -> MinikubeClusterView {
        MinikubeClusterView { node_count: self.node_count, name: self.name@ }
    }
}

/// Whether the cluster exists, going by how `minikube status` ended: it does if
/// and only if the command reported success.
pub open spec fn existence(status: Result<CommandOutput, std::io::Error>) -> Result<
    bool,
    MinikubeClusterError,
> {
    match status {
        Ok(output) => Ok(output.success),
        Err(source) => Err(MinikubeClusterError::IoError { source }),
    }
}

impl MinikubeCluster {
    /// Describes a cluster. Nothing is created on the system: that is what
    /// [`MinikubeCluster::create`] is for.
    pub fn new(node_count: usize, name: Option<String>) -> (cluster: Self)
        ensures
            cluster@ == (MinikubeClusterView {
                node_count,
                name: match name {
                    Some(given) => given@,
                    None => DEFAULT_LOCAL_CLUSTER_NAME@,
                },
            }),
            name is None ==> cluster@.name == "stackable-data-platform"@,
    {
        let name = match name {
            Some(given) => given,
            None => DEFAULT_LOCAL_CLUSTER_NAME.to_owned(),
        };
        MinikubeCluster { name, node_count }
    }

    /// Starts to create the cluster by calling the minikube binary.
    pub fn create(&self) -> (creation: MinikubeCreation<'_>)
        ensures
            creation@ == MinikubeCreationView::started(self@),
    {
        MinikubeCreation { cluster: self, phase: MinikubePhase::CheckBinaries }
    }

    /// Starts to create the cluster if it doesn't exist already.
    pub fn create_if_not_exists(&self) -> (creation: MinikubeCreation<'_>)
        ensures
            creation@ == MinikubeCreationView::started_if_absent(self@),
    {
        MinikubeCreation { cluster: self, phase: MinikubePhase::QueryStatus }
    }

    /// Retrieves the number of nodes.
    pub fn get_node_count(&self) -> (count: usize)
        ensures
            count == self@.node_count,
    {
        self.node_count
    }

    /// Retrieves the name of the cluster.
    pub fn get_name(&self) -> (name: &String)
        ensures
            name@ == self@.name,
    {
        &self.name
    }

    /// Checks if the cluster that `minikube status` was asked about exists.
    pub fn check_if_cluster_exists(status: Result<CommandOutput, std::io::Error>) -> (exists:
        Result<bool, MinikubeClusterError>)
        ensures
            exists == existence(status),
            status matches Ok(output) ==> exists == Ok::<bool, MinikubeClusterError>(
                output.success,
            ),
            status matches Err(source) ==> exists == Err::<bool, MinikubeClusterError>(
                MinikubeClusterError::IoError { source },
            ),
    {
        match status {
            Ok(output) => Ok(output.success),
            Err(source) => Err(MinikubeClusterError::IoError { source }),
        }
    }
}

/// Where the creation of a minikube cluster stands: what is to be done next, or
/// how it ended.
#[derive(Debug)]
pub enum MinikubePhase {
    /// Minikube is to be asked about the cluster.
    QueryStatus,
    /// The binaries that are needed are to be looked for.
    CheckBinaries,
    /// Docker is to be checked.
    CheckDocker,
    /// The cluster is to be started.
    Start,
    /// There is nothing left to do.
    Finished { outcome: Result<(), MinikubeClusterError> },
}

/// What the creation of a minikube cluster asks its caller to do.
#[derive(Debug)]
pub enum MinikubeAction {
    /// Run the command to its end and collect its output.
    QueryStatus { command: CommandLine },
    /// Find out whether all of the binaries are installed.
    CheckBinaries { binaries: Vec<String> },
    /// Check that Docker is running.
    CheckDocker,
    /// Run the command to its end.
    Start { command: CommandLine },
}

/// What a [`MinikubeAction`] asks for, with its texts as sequences of characters.
pub enum MinikubeActionView {
    /// See [`MinikubeAction::QueryStatus`].
    QueryStatus(CommandLineView),
    /// See [`MinikubeAction::CheckBinaries`].
    CheckBinaries(Seq<Seq<char>>),
    /// See [`MinikubeAction::CheckDocker`].
    CheckDocker,
    /// See [`MinikubeAction::Start`].
    Start(CommandLineView),
}

impl View for MinikubeAction {
    type V = MinikubeActionView;

    open spec fn view(&self) -> MinikubeActionView {
        match *self {
            MinikubeAction::QueryStatus { command } => MinikubeActionView::QueryStatus(command@),
            MinikubeAction::CheckBinaries { binaries } => MinikubeActionView::CheckBinaries(
                binaries.deep_view(),
            ),
            MinikubeAction::CheckDocker => MinikubeActionView::CheckDocker,
            MinikubeAction::Start { command } => MinikubeActionView::Start(command@),
        }
    }
}

/// How an action that was asked for went.
#[derive(Debug)]
pub enum MinikubeEvent {
    /// The status command ended, or could not be run.
    StatusQueried(Result<CommandOutput, std::io::Error>),
    /// The binaries were looked for; all of them are there, or not.
    BinariesChecked(bool),
    /// Docker was checked.
    DockerChecked(Result<(), DockerError>),
    /// The start command ended as reported, or running it failed with the error
    /// described.
    Started(Result<ExitReport, String>),
}

/// The creation of a minikube cluster, step by step.
///
/// [`MinikubeCreation::action`] says what to do next, and
/// [`MinikubeCreation::handle`] takes the answer.
#[derive(Debug)]
pub struct MinikubeCreation<'a> {
    cluster: &'a MinikubeCluster,
    phase: MinikubePhase,
}

/// The state of a [`MinikubeCreation`].
pub struct MinikubeCreationView {
    /// The cluster that is to be created.
    pub cluster: MinikubeClusterView,
    /// Where its creation stands.
    pub phase: MinikubePhase,
}

impl<'a> View for MinikubeCreation<'a> {
    type V = MinikubeCreationView;

    closed spec fn view(&self) -> MinikubeCreationView {
        MinikubeCreationView { cluster: self.cluster@, phase: self.phase }
    }
}

/// The command that asks for the status of a cluster.
pub open spec fn status_command(name: Seq<char>) -> CommandLineView {
    CommandLineView { program: "minikube"@, args: seq!["status"@, "-p"@, name, "-o"@, "json"@] }
}

/// The command that starts a cluster on Docker.
pub open spec fn start_command(cluster: MinikubeClusterView) -> CommandLineView {
    CommandLineView {
        program: "minikube"@,
        args: seq![
            "start"@,
            "--driver"@,
            "docker"@,
            "--nodes"@,
            decimal(cluster.node_count as nat),
            "-p"@,
            cluster.name,
        ],
    }
}

impl MinikubePhase {
    /// The phase that follows when `event` answers what this phase asks for. Any
    /// other event leaves the phase as it is.
    pub open spec fn successor(self, event: MinikubeEvent) -> Self {
        match (self, event) {
            (MinikubePhase::QueryStatus, MinikubeEvent::StatusQueried(status)) => match existence(
                status,
            ) {
                Ok(true) => MinikubePhase::Finished { outcome: Ok(()) },
                Ok(false) => MinikubePhase::CheckBinaries,
                Err(error) => MinikubePhase::Finished { outcome: Err(error) },
            },
            (MinikubePhase::CheckBinaries, MinikubeEvent::BinariesChecked(present)) => if present {
                MinikubePhase::CheckDocker
            } else {
                MinikubePhase::Finished { outcome: Err(MinikubeClusterError::MissingDepsError) }
            },
            (MinikubePhase::CheckDocker, MinikubeEvent::DockerChecked(docker)) => match docker {
                Ok(_) => MinikubePhase::Start,
                Err(source) => MinikubePhase::Finished {
                    outcome: Err(MinikubeClusterError::DockerError { source }),
                },
            },
            (MinikubePhase::Start, MinikubeEvent::Started(result)) => match result {
                Ok(report) => if report.success {
                    MinikubePhase::Finished { outcome: Ok(()) }
                } else {
                    MinikubePhase::Finished {
                        outcome: Err(MinikubeClusterError::CmdError { error: report.description }),
                    }
                },
                Err(error) => MinikubePhase::Finished {
                    outcome: Err(MinikubeClusterError::CmdError { error }),
                },
            },
            _ => self,
        }
    }

    /// What this phase asks for.
    pub open spec fn request(self, cluster: MinikubeClusterView) -> Option<MinikubeActionView> {
        match self {
            MinikubePhase::QueryStatus => Some(
                MinikubeActionView::QueryStatus(status_command(cluster.name)),
            ),
            MinikubePhase::CheckBinaries => Some(
                MinikubeActionView::CheckBinaries(seq!["docker"@, "minikube"@]),
            ),
            MinikubePhase::CheckDocker => Some(MinikubeActionView::CheckDocker),
            MinikubePhase::Start => Some(MinikubeActionView::Start(start_command(cluster))),
            MinikubePhase::Finished { .. } => None,
        }
    }

    fn next(self, event: MinikubeEvent) -> (phase: Self)
        ensures
            phase == self.successor(event),
    {
        match (self, event) {
            (MinikubePhase::QueryStatus, MinikubeEvent::StatusQueried(status)) => {
                match MinikubeCluster::check_if_cluster_exists(status) {
                    Ok(true) => MinikubePhase::Finished { outcome: Ok(()) },
                    Ok(false) => MinikubePhase::CheckBinaries,
                    Err(error) => MinikubePhase::Finished { outcome: Err(error) },
                }
            },
            (MinikubePhase::CheckBinaries, MinikubeEvent::BinariesChecked(present)) => {
                if present {
                    MinikubePhase::CheckDocker
                } else {
                    MinikubePhase::Finished { outcome: Err(MinikubeClusterError::MissingDepsError) }
                }
            },
            (MinikubePhase::CheckDocker, MinikubeEvent::DockerChecked(docker)) => match docker {
                Ok(_) => MinikubePhase::Start,
                Err(source) => MinikubePhase::Finished {
                    outcome: Err(MinikubeClusterError::DockerError { source }),
                },
            },
            (MinikubePhase::Start, MinikubeEvent::Started(result)) => match result {
                Ok(report) => if report.success {
                    MinikubePhase::Finished { outcome: Ok(()) }
                } else {
                    MinikubePhase::Finished {
                        outcome: Err(MinikubeClusterError::CmdError { error: report.description }),
                    }
                },
                Err(error) => MinikubePhase::Finished {
                    outcome: Err(MinikubeClusterError::CmdError { error }),
                },
            },
            (phase, _) => phase,
        }
    }
}

impl<'a> MinikubeCreation<'a> {
    /// What to do next; nothing once the creation has ended.
    pub fn action(&self) -> (action: Option<MinikubeAction>)
        ensures
            match action {
                Some(action) => self@.phase.request(self@.cluster) == Some(action@),
                None => self@.phase.request(self@.cluster) is None,
            },
            match action {
                Some(MinikubeAction::QueryStatus { command }) => {
                    &&& self@.phase is QueryStatus
                    &&& command.program@ == "minikube"@
                    &&& command.args.deep_view() == seq![
                        "status"@,
                        "-p"@,
                        self@.cluster.name,
                        "-o"@,
                        "json"@,
                    ]
                },
                Some(MinikubeAction::CheckBinaries { binaries }) => {
                    &&& self@.phase is CheckBinaries
                    &&& binaries.deep_view() == seq!["docker"@, "minikube"@]
                },
                Some(MinikubeAction::CheckDocker) => self@.phase is CheckDocker,
                Some(MinikubeAction::Start { command }) => {
                    &&& self@.phase is Start
                    &&& command.program@ == "minikube"@
                    &&& command.args.deep_view() == seq![
                        "start"@,
                        "--driver"@,
                        "docker"@,
                        "--nodes"@,
                        decimal(self@.cluster.node_count as nat),
                        "-p"@,
                        self@.cluster.name,
                    ]
                },
                None => self@.phase is Finished,
            },
    {
        match &self.phase {
            MinikubePhase::QueryStatus => {
                let command = CommandLine::new("minikube").arg("status").arg("-p").arg(
                    self.cluster.name.as_str(),
                ).arg("-o").arg("json");
                assert(command@.args == status_command(self@.cluster.name).args);
                Some(MinikubeAction::QueryStatus { command })
            },
            MinikubePhase::CheckBinaries => {
                let binaries = vec!["docker".to_owned(), "minikube".to_owned()];
                assert(binaries.deep_view() == seq!["docker"@, "minikube"@]);
                Some(MinikubeAction::CheckBinaries { binaries })
            },
            MinikubePhase::CheckDocker => Some(MinikubeAction::CheckDocker),
            MinikubePhase::Start => {
                let nodes = number_text(self.cluster.node_count);
                let command = CommandLine::new("minikube").arg("start").arg("--driver").arg(
                    "docker",
                ).arg("--nodes").arg(nodes.as_str()).arg("-p").arg(self.cluster.name.as_str());
                assert(command@.args == start_command(self@.cluster).args);
                Some(MinikubeAction::Start { command })
            },
            MinikubePhase::Finished { .. } => None,
        }
    }

    /// Takes the answer to the action that was asked for. An event that is no
    /// answer to it changes nothing.
    pub fn handle(self, event: MinikubeEvent) -> (next: Self)
        ensures
            next@ == self@.next(event),
    {
        let MinikubeCreation { cluster, phase } = self;
        MinikubeCreation { cluster, phase: phase.next(event) }
    }

    /// How the creation ended, or the creation itself while it has not.
    pub fn outcome(self) -> (outcome: Result<Result<(), MinikubeClusterError>, Self>)
        ensures
            match outcome {
                Ok(ended) => self@.phase == (MinikubePhase::Finished { outcome: ended }),
                Err(ongoing) => ongoing == self && !(self@.phase is Finished),
            },
    {
        let MinikubeCreation { cluster, phase } = self;
        match phase {
            MinikubePhase::Finished { outcome } => Ok(outcome),
            phase => Err(MinikubeCreation { cluster, phase }),
        }
    }
}

impl MinikubeCreationView {
    /// The start of a creation that does not ask whether the cluster exists.
    pub open spec fn started(cluster: MinikubeClusterView) -> Self {
        MinikubeCreationView { cluster, phase: MinikubePhase::CheckBinaries }
    }

    /// The start of a creation that asks first.
    pub open spec fn started_if_absent(cluster: MinikubeClusterView) -> Self {
        MinikubeCreationView { cluster, phase: MinikubePhase::QueryStatus }
    }

    /// The state after `event`.
    pub open spec fn next(self, event: MinikubeEvent) -> Self {
        MinikubeCreationView { cluster: self.cluster, phase: self.phase.successor(event) }
    }

    /// The state after all of `events`, in order.
    pub open spec fn run(self, events: Seq<MinikubeEvent>) -> Self
        decreases events.len(),
    {
        if events.len() == 0 {
            self
        } else {
            self.run(events.drop_last()).next(events.last())
        }
    }
}

} // verus!
