//! Local clusters that are run by kind.
use vstd::prelude::*;
use vstd::utf8::{decode_utf8, valid_utf8};

use crate::command::{CommandLine, CommandLineView, CommandOutput, ExitReport};
use crate::constants::DEFAULT_LOCAL_CLUSTER_NAME;
use crate::engine::DockerError;
use crate::outside::{lossy_text, utf8_lossy};
use crate::text::{has_line, lines};

pub mod laws;

verus! {

/// Why a kind cluster could not be created.
#[allow(inconsistent_fields)]
#[derive(Debug)]
pub enum KindClusterError {
    /// An operation of the operating system failed.
    IoError { source: std::io::Error },
    /// The kind process has no standard input to write to.
    StdinError,
    /// The kind command failed, and this is what it reported.
    KindCommandError { error: String },
    /// A binary that is needed is not installed.
    MissingBinaryError { binary: String },
    /// Docker is not available.
    DockerError { source: DockerError },
    /// The configuration of the cluster has no YAML form.
    YamlError { source: serde_yaml::Error },
}

/// What a [`KindClusterError`] says, with its texts as sequences of characters.
pub enum KindClusterErrorView {
    /// See [`KindClusterError::IoError`].
    Io(std::io::Error),
    /// See [`KindClusterError::StdinError`].
    Stdin,
    /// See [`KindClusterError::KindCommandError`].
    KindCommand(Seq<char>),
    /// See [`KindClusterError::MissingBinaryError`].
    MissingBinary(Seq<char>),
    /// See [`KindClusterError::DockerError`].
    Docker(DockerError),
    /// See [`KindClusterError::YamlError`].
    Yaml(serde_yaml::Error),
}

impl View for KindClusterError {
    type V = KindClusterErrorView;

    open spec fn view(&self) -> KindClusterErrorView {
        match *self {
            KindClusterError::IoError { source } => KindClusterErrorView::Io(source),
            KindClusterError::StdinError => KindClusterErrorView::Stdin,
            KindClusterError::KindCommandError { error } => KindClusterErrorView::KindCommand(
                error@,
            ),
            KindClusterError::MissingBinaryError { binary } => KindClusterErrorView::MissingBinary(
                binary@,
            ),
            KindClusterError::DockerError { source } => KindClusterErrorView::Docker(source),
            KindClusterError::YamlError { source } => KindClusterErrorView::Yaml(source),
        }
    }
}

impl KindClusterErrorView {
    /// The text that describes the error to a user.
    pub open spec fn message(self) -> Seq<char> {
        match self {
            KindClusterErrorView::Io(_) => "io error"@,
            KindClusterErrorView::Stdin => "no stdin error"@,
            KindClusterErrorView::KindCommand(error) => "kind command error: "@ + error,
            KindClusterErrorView::MissingBinary(binary) => "missing required binary: "@ + binary,
            KindClusterErrorView::Docker(_) => "docker error"@,
            KindClusterErrorView::Yaml(_) => "failed to covert kind config to yaml"@,
        }
    }
}

impl KindClusterError {
    /// Describes the error to a user.
    pub fn message(&self) -> (text: String)
        ensures
            text@ == self@.message(),
            match *self {
                KindClusterError::IoError { .. } => text@ == "io error"@,
                KindClusterError::StdinError => text@ == "no stdin error"@,
                KindClusterError::KindCommandError { error } => text@ == "kind command error: "@
                    + error@,
                KindClusterError::MissingBinaryError { binary } => text@
                    == "missing required binary: "@ + binary@,
                KindClusterError::DockerError { .. } => text@ == "docker error"@,
                KindClusterError::YamlError { .. } => text@
                    == "failed to covert kind config to yaml"@,
            },
    {
        match self {
            KindClusterError::IoError { .. } => "io error".to_owned(),
            KindClusterError::StdinError => "no stdin error".to_owned(),
            KindClusterError::KindCommandError { error } => {
                "kind command error: ".to_owned().concat(error.as_str())
            },
            KindClusterError::MissingBinaryError { binary } => {
                "missing required binary: ".to_owned().concat(binary.as_str())
            },
            KindClusterError::DockerError { .. } => "docker error".to_owned(),
            KindClusterError::YamlError { .. } => "failed to covert kind config to yaml".to_owned(),
        }
    }
}

/// The outcome of a step that ends with an error or with a value.
pub open spec fn outcome_view<T>(outcome: Result<T, KindClusterError>) -> Result<
    T,
    KindClusterErrorView,
> {
    match outcome {
        Ok(value) => Ok(value),
        Err(error) => Err(error@),
    }
}

/// A cluster that kind runs, or is meant to run.
#[derive(Debug)]
pub struct KindCluster {
    cp_node_count: usize,
    node_count: usize,
    name: String,
}

/// What a [`KindCluster`] says of the cluster.
pub struct KindClusterView {
    /// The number of nodes.
    pub node_count: usize,
    /// The number of control plane nodes.
    pub cp_node_count: usize,
    /// The name of the cluster.
    pub name: Seq<char>,
}

impl View for KindCluster {
    type V = KindClusterView;

    closed spec fn view(&self) -> KindClusterView {
        KindClusterView {
            node_count: self.node_count,
            cp_node_count: self.cp_node_count,
            name: self.name@,
        }
    }
}

/// Whether `kind get clusters`, which ended with `listing`, names the cluster.
///
/// The cluster exists when its name is one of the lines that kind printed. A
/// listing that could not be obtained says nothing about clusters.
pub open spec fn existence(
    cluster_name: Seq<char>,
    listing: Result<CommandOutput, std::io::Error>,
) -> Result<bool, KindClusterErrorView> {
    match listing {
        Err(source) => Err(KindClusterErrorView::Io(source)),
        Ok(output) => if output.success {
            Ok(lines(utf8_lossy(output.stdout@)).contains(cluster_name))
        } else {
            Err(KindClusterErrorView::KindCommand(utf8_lossy(output.stderr@)))
        },
    }
}

impl KindCluster {
    /// Describes a cluster. Nothing is created on the system: that is what
    /// [`KindCluster::create`] is for.
    pub fn new(node_count: usize, cp_node_count: usize, name: Option<String>) -> (cluster: Self)
        ensures
            cluster@ == (KindClusterView {
                node_count,
                cp_node_count,
                name: match name {
                    Some(given) => given@,
                    None => DEFAULT_LOCAL_CLUSTER_NAME@,
                },
            }),
            name is None ==> cluster@.name == "stackable-data-platform"@,
    {
        let name = match name {
            Some(given) => given,
            None => DEFAULT_LOCAL_CLUSTER_NAME.to_owned(),
        };
        KindCluster { name, cp_node_count, node_count }
    }

    /// Starts to create the cluster by calling the kind binary.
    pub fn create(&self) -> (creation: KindCreation<'_>)
        ensures
            creation@ == KindCreationView::started(self@),
    {
        KindCreation { cluster: self, phase: KindPhase::CheckBinaries }
    }

    /// Starts to create the cluster if it doesn't exist already.
    pub fn create_if_not_exists(&self) -> (creation: KindCreation<'_>)
        ensures
            creation@ == KindCreationView::started_if_absent(self@),
    {
        KindCreation { cluster: self, phase: KindPhase::ListClusters }
    }

    /// Retrieves the number of nodes.
    pub fn get_node_count(&self) -> (count: usize)
        ensures
            count == self@.node_count,
    {
        self.node_count
    }

    /// Retrieves the name of the cluster.
    pub fn get_name(&self) -> (name: &String)
        ensures
            name@ == self@.name,
    {
        &self.name
    }

    /// Checks if a cluster with the given name already exists, going by how
    /// `kind get clusters` ended.
    pub fn check_if_cluster_exists(
        cluster_name: &str,
        listing: Result<CommandOutput, std::io::Error>,
    ) -> (exists: Result<bool, KindClusterError>)
        ensures
            outcome_view(exists) == existence(cluster_name@, listing),
            listing matches Ok(output) ==> (output.success && valid_utf8(output.stdout@)
                ==> outcome_view(exists) == Ok::<bool, KindClusterErrorView>(
                lines(decode_utf8(output.stdout@)).contains(cluster_name@),
            )),
            listing matches Ok(output) ==> (!output.success && valid_utf8(output.stderr@)
                ==> outcome_view(exists) == Err::<bool, KindClusterErrorView>(
                KindClusterErrorView::KindCommand(decode_utf8(output.stderr@)),
            )),
            match listing {
                Ok(output) => if output.success {
                    exists matches Ok(found) && found == lines(utf8_lossy(output.stdout@)).contains(
                        cluster_name@,
                    )
                } else {
                    exists matches Err(KindClusterError::KindCommandError { error }) && error@
                        == utf8_lossy(output.stderr@)
                },
                Err(source) => exists == Err::<bool, KindClusterError>(
                    KindClusterError::IoError { source },
                ),
            },
    {
        match listing {
            Err(source) => Err(KindClusterError::IoError { source }),
            Ok(output) => {
                if output.success {
                    let text = lossy_text(output.stdout.as_slice());
                    Ok(has_line(text.as_str(), cluster_name))
                } else {
                    Err(
                        KindClusterError::KindCommandError {
                            error: lossy_text(output.stderr.as_slice()),
                        },
                    )
                }
            },
        }
    }
}

/// Where the creation of a kind cluster stands: what is to be done next, or how
/// it ended.
#[derive(Debug)]
pub enum KindPhase {
    /// The existing clusters are to be listed.
    ListClusters,
    /// The binaries that are needed are to be looked for.
    CheckBinaries,
    /// Docker is to be checked.
    CheckDocker,
    /// The configuration of the cluster is to be rendered.
    RenderConfig,
    /// The kind process is to be spawned.
    Spawn { config: String },
    /// The standard input of the process is to be taken.
    TakeStdin { config: String },
    /// The configuration is to be written.
    WriteConfig { config: String },
    /// What was written is to be flushed.
    Flush,
    /// The standard input of the process is to be closed.
    CloseStdin,
    /// The process is to be waited for.
    Wait,
    /// There is nothing left to do.
    Finished { outcome: Result<(), KindClusterError> },
}

/// What a [`KindPhase`] says, with its texts as sequences of characters.
pub enum KindPhaseView {
    /// See [`KindPhase::ListClusters`].
    ListClusters,
    /// See [`KindPhase::CheckBinaries`].
    CheckBinaries,
    /// See [`KindPhase::CheckDocker`].
    CheckDocker,
    /// See [`KindPhase::RenderConfig`].
    RenderConfig,
    /// See [`KindPhase::Spawn`].
    Spawn(Seq<char>),
    /// See [`KindPhase::TakeStdin`].
    TakeStdin(Seq<char>),
    /// See [`KindPhase::WriteConfig`].
    WriteConfig(Seq<char>),
    /// See [`KindPhase::Flush`].
    Flush,
    /// See [`KindPhase::CloseStdin`].
    CloseStdin,
    /// See [`KindPhase::Wait`].
    Wait,
    /// See [`KindPhase::Finished`].
    Finished(Result<(), KindClusterErrorView>),
}

impl View for KindPhase {
    type V = KindPhaseView;

    open spec fn view(&self) -> KindPhaseView {
        match *self {
            KindPhase::ListClusters => KindPhaseView::ListClusters,
            KindPhase::CheckBinaries => KindPhaseView::CheckBinaries,
            KindPhase::CheckDocker => KindPhaseView::CheckDocker,
            KindPhase::RenderConfig => KindPhaseView::RenderConfig,
            KindPhase::Spawn { config } => KindPhaseView::Spawn(config@),
            KindPhase::TakeStdin { config } => KindPhaseView::TakeStdin(config@),
            KindPhase::WriteConfig { config } => KindPhaseView::WriteConfig(config@),
            KindPhase::Flush => KindPhaseView::Flush,
            KindPhase::CloseStdin => KindPhaseView::CloseStdin,
            KindPhase::Wait => KindPhaseView::Wait,
            KindPhase::Finished { outcome } => KindPhaseView::Finished(outcome_view(outcome)),
        }
    }
}

/// What the creation of a kind cluster asks its caller to do.
#[derive(Debug)]
pub enum KindAction<'s> {
    /// Run the command to its end and collect its output.
    List { command: CommandLine },
    /// Find the first of the binaries that is not installed.
    CheckBinaries { binaries: Vec<String> },
    /// Check that Docker is running.
    CheckDocker,
    /// Render the configuration of a cluster of this size as YAML.
    RenderConfig { node_count: usize, cp_node_count: usize },
    /// Spawn the command with a pipe as its standard input.
    Spawn { command: CommandLine },
    /// Take the standard input of the process.
    TakeStdin,
    /// Write the whole text to the standard input of the process.
    WriteConfig { config: &'s String },
    /// Flush the standard input of the process.
    Flush,
    /// Close the standard input of the process.
    CloseStdin,
    /// Wait until the process ends.
    Wait,
}

/// What a [`KindAction`] asks for, with its texts as sequences of characters.
pub enum KindActionView {
    /// See [`KindAction::List`].
    List(CommandLineView),
    /// See [`KindAction::CheckBinaries`].
    CheckBinaries(Seq<Seq<char>>),
    /// See [`KindAction::CheckDocker`].
    CheckDocker,
    /// See [`KindAction::RenderConfig`].
    RenderConfig { node_count: usize, cp_node_count: usize },
    /// See [`KindAction::Spawn`].
    Spawn(CommandLineView),
    /// See [`KindAction::TakeStdin`].
    TakeStdin,
    /// See [`KindAction::WriteConfig`].
    WriteConfig(Seq<char>),
    /// See [`KindAction::Flush`].
    Flush,
    /// See [`KindAction::CloseStdin`].
    CloseStdin,
    /// See [`KindAction::Wait`].
    Wait,
}

impl<'s> View for KindAction<'s> {
    type V = KindActionView;

    open spec fn view(&self) -> KindActionView {
        match *self {
            KindAction::List { command } => KindActionView::List(command@),
            KindAction::CheckBinaries { binaries } => KindActionView::CheckBinaries(
                binaries.deep_view(),
            ),
            KindAction::CheckDocker => KindActionView::CheckDocker,
            KindAction::RenderConfig { node_count, cp_node_count } => KindActionView::RenderConfig {
                node_count,
                cp_node_count,
            },
            KindAction::Spawn { command } => KindActionView::Spawn(command@),
            KindAction::TakeStdin => KindActionView::TakeStdin,
            KindAction::WriteConfig { config } => KindActionView::WriteConfig(config@),
            KindAction::Flush => KindActionView::Flush,
            KindAction::CloseStdin => KindActionView::CloseStdin,
            KindAction::Wait => KindActionView::Wait,
        }
    }
}

/// How an action that was asked for went.
#[derive(Debug)]
pub enum KindEvent {
    /// The listing command ended, or could not be run.
    Listed(Result<CommandOutput, std::io::Error>),
    /// The binaries were looked for; the first one missing is named.
    BinariesChecked(Option<String>),
    /// Docker was checked.
    DockerChecked(Result<(), DockerError>),
    /// The configuration was rendered.
    ConfigRendered(Result<String, serde_yaml::Error>),
    /// The process was spawned.
    Spawned(Result<(), std::io::Error>),
    /// The standard input was taken, if the process had one.
    StdinTaken(bool),
    /// The configuration was written.
    Written(Result<(), std::io::Error>),
    /// What was written was flushed.
    Flushed(Result<(), std::io::Error>),
    /// The standard input was closed.
    StdinClosed,
    /// The process ended as reported, or waiting for it failed with the error
    /// described.
    Exited(Result<ExitReport, String>),
}

/// The creation of a kind cluster, step by step.
///
/// [`KindCreation::action`] says what to do next, and [`KindCreation::handle`]
/// takes the answer.
#[derive(Debug)]
pub struct KindCreation<'a> {
    cluster: &'a KindCluster,
    phase: KindPhase,
}

/// The state of a [`KindCreation`].
pub struct KindCreationView {
    /// The cluster that is to be created.
    pub cluster: KindClusterView,
    /// Where its creation stands.
    pub phase: KindPhaseView,
}

impl<'a> View for KindCreation<'a> {
    type V = KindCreationView;

    closed spec fn view(&self) -> KindCreationView {
        KindCreationView { cluster: self.cluster@, phase: self.phase@ }
    }
}

/// The command that lists the existing clusters.
pub open spec fn list_command() -> CommandLineView {
    CommandLineView { program: "kind"@, args: seq!["get"@, "clusters"@] }
}

/// The command that creates a cluster with the configuration on its standard
/// input.
pub open spec fn create_command(name: Seq<char>) -> CommandLineView {
    CommandLineView {
        program: "kind"@,
        args: seq!["create"@, "cluster"@, "--name"@, name, "--config"@, "-"@],
    }
}

impl KindPhaseView {
    /// The creation ended with `error`.
    pub open spec fn failed(error: KindClusterErrorView) -> Self {
        KindPhaseView::Finished(Err(error))
    }

    /// The phase after an operation of the operating system that `next` follows
    /// if it succeeds.
    pub open spec fn after_io(result: Result<(), std::io::Error>, next: Self) -> Self {
        match result {
            Ok(_) => next,
            Err(source) => Self::failed(KindClusterErrorView::Io(source)),
        }
    }

    /// The phase that follows when `event` answers what this phase asks for. Any
    /// other event leaves the phase as it is.
    pub open spec fn next(self, cluster: KindClusterView, event: KindEvent) -> Self {
        match (self, event) {
            (KindPhaseView::ListClusters, KindEvent::Listed(listing)) => match existence(
                cluster.name,
                listing,
            ) {
                Ok(true) => KindPhaseView::Finished(Ok(())),
                Ok(false) => KindPhaseView::CheckBinaries,
                Err(error) => Self::failed(error),
            },
            (KindPhaseView::CheckBinaries, KindEvent::BinariesChecked(missing)) => match missing {
                None => KindPhaseView::CheckDocker,
                Some(binary) => Self::failed(KindClusterErrorView::MissingBinary(binary@)),
            },
            (KindPhaseView::CheckDocker, KindEvent::DockerChecked(docker)) => match docker {
                Ok(_) => KindPhaseView::RenderConfig,
                Err(source) => Self::failed(KindClusterErrorView::Docker(source)),
            },
            (KindPhaseView::RenderConfig, KindEvent::ConfigRendered(rendered)) => match rendered {
                Ok(config) => KindPhaseView::Spawn(config@),
                Err(source) => Self::failed(KindClusterErrorView::Yaml(source)),
            },
            (KindPhaseView::Spawn(config), KindEvent::Spawned(result)) => Self::after_io(
                result,
                KindPhaseView::TakeStdin(config),
            ),
            (KindPhaseView::TakeStdin(config), KindEvent::StdinTaken(taken)) => if taken {
                KindPhaseView::WriteConfig(config)
            } else {
                Self::failed(KindClusterErrorView::Stdin)
            },
            (KindPhaseView::WriteConfig(_), KindEvent::Written(result)) => Self::after_io(
                result,
                KindPhaseView::Flush,
            ),
            (KindPhaseView::Flush, KindEvent::Flushed(result)) => Self::after_io(
                result,
                KindPhaseView::CloseStdin,
            ),
            (KindPhaseView::CloseStdin, KindEvent::StdinClosed) => KindPhaseView::Wait,
            (KindPhaseView::Wait, KindEvent::Exited(result)) => match result {
                Ok(report) => if report.success {
                    KindPhaseView::Finished(Ok(()))
                } else {
                    Self::failed(KindClusterErrorView::KindCommand(report.description@))
                },
                Err(error) => Self::failed(KindClusterErrorView::KindCommand(error@)),
            },
            _ => self,
        }
    }

    /// What this phase asks for.
    pub open spec fn action(self, cluster: KindClusterView) -> Option<KindActionView> {
        match self {
            KindPhaseView::ListClusters => Some(KindActionView::List(list_command())),
            KindPhaseView::CheckBinaries => Some(
                KindActionView::CheckBinaries(seq!["docker"@, "kind"@]),
            ),
            KindPhaseView::CheckDocker => Some(KindActionView::CheckDocker),
            KindPhaseView::RenderConfig => Some(
                KindActionView::RenderConfig {
                    node_count: cluster.node_count,
                    cp_node_count: cluster.cp_node_count,
                },
            ),
            KindPhaseView::Spawn(_) => Some(KindActionView::Spawn(create_command(cluster.name))),
            KindPhaseView::TakeStdin(_) => Some(KindActionView::TakeStdin),
            KindPhaseView::WriteConfig(config) => Some(KindActionView::WriteConfig(config)),
            KindPhaseView::Flush => Some(KindActionView::Flush),
            KindPhaseView::CloseStdin => Some(KindActionView::CloseStdin),
            KindPhaseView::Wait => Some(KindActionView::Wait),
            KindPhaseView::Finished(_) => None,
        }
    }
}

impl KindPhase {
    fn failed(error: KindClusterError) -> (phase: Self)
        ensures
            phase@ == KindPhaseView::failed(error@),
    {
        KindPhase::Finished { outcome: Err(error) }
    }

    fn after_io(result: Result<(), std::io::Error>, next: KindPhase) -> (phase: Self)
        ensures
            phase@ == KindPhaseView::after_io(result, next@),
    {
        match result {
            Ok(_) => next,
            Err(source) => KindPhase::failed(KindClusterError::IoError { source }),
        }
    }

    fn next(self, cluster: &KindCluster, event: KindEvent) -> (phase: Self)
        ensures
            phase@ == self@.next(cluster@, event),
            event matches KindEvent::Listed(Ok(output)) ==> (self@ is ListClusters
                && output.success && valid_utf8(output.stdout@) ==> phase@ == (if lines(
                decode_utf8(output.stdout@),
            ).contains(cluster@.name) {
                KindPhaseView::Finished(Ok(()))
            } else {
                KindPhaseView::CheckBinaries
            })),
            event matches KindEvent::Listed(Ok(output)) ==> (self@ is ListClusters
                && !output.success && valid_utf8(output.stderr@)
                ==> phase@ == KindPhaseView::failed(
                KindClusterErrorView::KindCommand(decode_utf8(output.stderr@)),
            )),
    {
        match (self, event) {
            (KindPhase::ListClusters, KindEvent::Listed(listing)) => {
                match KindCluster::check_if_cluster_exists(cluster.name.as_str(), listing) {
                    Ok(true) => KindPhase::Finished { outcome: Ok(()) },
                    Ok(false) => KindPhase::CheckBinaries,
                    Err(error) => KindPhase::failed(error),
                }
            },
            (KindPhase::CheckBinaries, KindEvent::BinariesChecked(missing)) => match missing {
                None => KindPhase::CheckDocker,
                Some(binary) => KindPhase::failed(KindClusterError::MissingBinaryError { binary }),
            },
            (KindPhase::CheckDocker, KindEvent::DockerChecked(docker)) => match docker {
                Ok(_) => KindPhase::RenderConfig,
                Err(source) => KindPhase::failed(KindClusterError::DockerError { source }),
            },
            (KindPhase::RenderConfig, KindEvent::ConfigRendered(rendered)) => match rendered {
                Ok(config) => KindPhase::Spawn { config },
                Err(source) => KindPhase::failed(KindClusterError::YamlError { source }),
            },
            (KindPhase::Spawn { config }, KindEvent::Spawned(result)) => {
                KindPhase::after_io(result, KindPhase::TakeStdin { config })
            },
            (KindPhase::TakeStdin { config }, KindEvent::StdinTaken(taken)) => {
                if taken {
                    KindPhase::WriteConfig { config }
                } else {
                    KindPhase::failed(KindClusterError::StdinError)
                }
            },
            (KindPhase::WriteConfig { .. }, KindEvent::Written(result)) => {
                KindPhase::after_io(result, KindPhase::Flush)
            },
            (KindPhase::Flush, KindEvent::Flushed(result)) => {
                KindPhase::after_io(result, KindPhase::CloseStdin)
            },
            (KindPhase::CloseStdin, KindEvent::StdinClosed) => KindPhase::Wait,
            (KindPhase::Wait, KindEvent::Exited(result)) => match result {
                Ok(report) => if report.success {
                    KindPhase::Finished { outcome: Ok(()) }
                } else {
                    KindPhase::failed(
                        KindClusterError::KindCommandError { error: report.description },
                    )
                },
                Err(error) => KindPhase::failed(KindClusterError::KindCommandError { error }),
            },
            (phase, _) => phase,
        }
    }
}

impl<'a> KindCreation<'a> {
    /// What to do next; nothing once the creation has ended.
    pub fn action(&self) -> (action: Option<KindAction<'_>>)
        ensures
            match action {
                Some(action) => self@.phase.action(self@.cluster) == Some(action@),
                None => self@.phase.action(self@.cluster) is None,
            },
            match action {
                Some(KindAction::List { command }) => {
                    &&& self@.phase is ListClusters
                    &&& command.program@ == "kind"@
                    &&& command.args.deep_view() == seq!["get"@, "clusters"@]
                },
                Some(KindAction::CheckBinaries { binaries }) => {
                    &&& self@.phase is CheckBinaries
                    &&& binaries.deep_view() == seq!["docker"@, "kind"@]
                },
                Some(KindAction::CheckDocker) => self@.phase is CheckDocker,
                Some(KindAction::RenderConfig { node_count, cp_node_count }) => {
                    &&& self@.phase is RenderConfig
                    &&& node_count == self@.cluster.node_count
                    &&& cp_node_count == self@.cluster.cp_node_count
                },
                Some(KindAction::Spawn { command }) => {
                    &&& self@.phase is Spawn
                    &&& command.program@ == "kind"@
                    &&& command.args.deep_view() == seq![
                        "create"@,
                        "cluster"@,
                        "--name"@,
                        self@.cluster.name,
                        "--config"@,
                        "-"@,
                    ]
                },
                Some(KindAction::TakeStdin) => self@.phase is TakeStdin,
                Some(KindAction::WriteConfig { config }) => self@.phase
                    == KindPhaseView::WriteConfig(config@),
                Some(KindAction::Flush) => self@.phase is Flush,
                Some(KindAction::CloseStdin) => self@.phase is CloseStdin,
                Some(KindAction::Wait) => self@.phase is Wait,
                None => self@.phase is Finished,
            },
    {
        match &self.phase {
            KindPhase::ListClusters => {
                let command = CommandLine::new("kind").arg("get").arg("clusters");
                assert(command@.args == list_command().args);
                Some(KindAction::List { command })
            },
            KindPhase::CheckBinaries => {
                let binaries = vec!["docker".to_owned(), "kind".to_owned()];
                assert(binaries.deep_view() == seq!["docker"@, "kind"@]);
                Some(KindAction::CheckBinaries { binaries })
            },
            KindPhase::CheckDocker => Some(KindAction::CheckDocker),
            KindPhase::RenderConfig => Some(
                KindAction::RenderConfig {
                    node_count: self.cluster.node_count,
                    cp_node_count: self.cluster.cp_node_count,
                },
            ),
            KindPhase::Spawn { .. } => {
                let command = CommandLine::new("kind").arg("create").arg("cluster").arg(
                    "--name",
                ).arg(self.cluster.name.as_str()).arg("--config").arg("-");
                assert(command@.args == create_command(self@.cluster.name).args);
                Some(KindAction::Spawn { command })
            },
            KindPhase::TakeStdin { .. } => Some(KindAction::TakeStdin),
            KindPhase::WriteConfig { config } => Some(KindAction::WriteConfig { config }),
            KindPhase::Flush => Some(KindAction::Flush),
            KindPhase::CloseStdin => Some(KindAction::CloseStdin),
            KindPhase::Wait => Some(KindAction::Wait),
            KindPhase::Finished { .. } => None,
        }
    }

    /// Takes the answer to the action that was asked for. An event that is no
    /// answer to it changes nothing.
    pub fn handle(self, event: KindEvent) -> (next: Self)
        ensures
            next@ == self@.next(event),
            event matches KindEvent::Listed(Ok(output)) ==> (self@.phase is ListClusters
                && output.success && valid_utf8(output.stdout@) ==> next@.phase == (if lines(
                decode_utf8(output.stdout@),
            ).contains(self@.cluster.name) {
                KindPhaseView::Finished(Ok(()))
            } else {
                KindPhaseView::CheckBinaries
            })),
            event matches KindEvent::Listed(Ok(output)) ==> (self@.phase is ListClusters
                && !output.success && valid_utf8(output.stderr@)
                ==> next@.phase == KindPhaseView::failed(
                KindClusterErrorView::KindCommand(decode_utf8(output.stderr@)),
            )),
    {
        let KindCreation { cluster, phase } = self;
        KindCreation { cluster, phase: phase.next(cluster, event) }
    }

    /// How the creation ended, or the creation itself while it has not.
    pub fn outcome(self) -> (outcome: Result<Result<(), KindClusterError>, Self>)
        ensures
            match outcome {
                Ok(ended) => self@.phase == KindPhaseView::Finished(outcome_view(ended)),
                Err(ongoing) => ongoing == self && !(self@.phase is Finished),
            },
            match outcome {
                Ok(Ok(_)) => self@.phase matches KindPhaseView::Finished(Ok(_)),
                Ok(Err(error)) => self@.phase matches KindPhaseView::Finished(Err(shown))
                    && match error {
                    KindClusterError::IoError { source } => shown == KindClusterErrorView::Io(
                        source,
                    ),
                    KindClusterError::StdinError => shown is Stdin,
                    KindClusterError::KindCommandError { error } => shown
                        == KindClusterErrorView::KindCommand(error@),
                    KindClusterError::MissingBinaryError { binary } => shown
                        == KindClusterErrorView::MissingBinary(binary@),
                    KindClusterError::DockerError { source } => shown
                        == KindClusterErrorView::Docker(source),
                    KindClusterError::YamlError { source } => shown == KindClusterErrorView::Yaml(
                        source,
                    ),
                },
                Err(_) => true,
            },
    {
        let KindCreation { cluster, phase } = self;
        match phase {
            KindPhase::Finished { outcome } => Ok(outcome),
            phase => Err(KindCreation { cluster, phase }),
        }
    }
}

impl KindCreationView {
    /// The start of a creation that does not ask whether the cluster exists.
    pub open spec fn started(cluster: KindClusterView) -> Self {
        KindCreationView { cluster, phase: KindPhaseView::CheckBinaries }
    }

    /// The start of a creation that asks first.
    pub open spec fn started_if_absent(cluster: KindClusterView) -> Self {
        KindCreationView { cluster, phase: KindPhaseView::ListClusters }
    }

    /// The state after `event`.
    pub open spec fn next(self, event: KindEvent) -> Self {
        KindCreationView { cluster: self.cluster, phase: self.phase.next(self.cluster, event) }
    }

    /// The state after all of `events`, in order.
    pub open spec fn run(self, events: Seq<KindEvent>) -> Self
        decreases events.len(),
    {
        if events.len() == 0 {
            self
        } else {
            self.run(events.drop_last()).next(events.last())
        }
    }
}

} // verus!
