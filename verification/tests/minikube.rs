use std::io::{Error, ErrorKind};

use stackable_cockpit::command::{CommandOutput, ExitReport};
use stackable_cockpit::engine::minikube::{
    MinikubeAction, MinikubeCluster, MinikubeClusterError, MinikubeEvent,
};
use stackable_cockpit::engine::DockerError;

fn status(success: bool) -> Result<CommandOutput, Error> {
    Ok(CommandOutput {
        success,
        stdout: b"{}".to_vec(),
        stderr: Vec::new(),
    })
}

fn exit(success: bool, description: &str) -> Result<ExitReport, String> {
    Ok(ExitReport {
        success,
        description: description.to_string(),
    })
}

#[test]
fn minikube_clusters_have_names_and_nodes() {
    let unnamed = MinikubeCluster::new(4, None);
    assert_eq!(unnamed.get_name(), "stackable-data-platform");
    assert_eq!(unnamed.get_node_count(), 4);
    assert_eq!(MinikubeCluster::new(1, Some("x".to_string())).get_name(), "x");
}

#[test]
fn minikube_creation_asks_for_each_step_in_turn() {
    let cluster = MinikubeCluster::new(120, Some("mine".to_string()));
    let creation = cluster.create_if_not_exists();
    match creation.action() {
        Some(MinikubeAction::QueryStatus { command }) => {
            assert_eq!(command.program, "minikube");
            assert_eq!(command.args, vec!["status", "-p", "mine", "-o", "json"]);
        }
        other => panic!("asked for {:?}", other),
    }
    let creation = creation.handle(MinikubeEvent::StatusQueried(status(false)));
    match creation.action() {
        Some(MinikubeAction::CheckBinaries { binaries }) => {
            assert_eq!(binaries, vec!["docker", "minikube"])
        }
        other => panic!("asked for {:?}", other),
    }
    let creation = creation.handle(MinikubeEvent::BinariesChecked(true));
    assert!(matches!(creation.action(), Some(MinikubeAction::CheckDocker)));
    let creation = creation.handle(MinikubeEvent::DockerChecked(Ok(())));
    match creation.action() {
        Some(MinikubeAction::Start { command }) => {
            assert_eq!(command.program, "minikube");
            assert_eq!(
                command.args,
                vec!["start", "--driver", "docker", "--nodes", "120", "-p", "mine"]
            );
        }
        other => panic!("asked for {:?}", other),
    }
    let creation = creation.handle(MinikubeEvent::Started(exit(true, "exit status: 0")));
    assert!(creation.action().is_none());
    assert!(matches!(creation.outcome(), Ok(Ok(()))));
}

#[test]
fn existing_minikube_cluster_is_left_alone() {
    let cluster = MinikubeCluster::new(1, None);
    let creation = cluster
        .create_if_not_exists()
        .handle(MinikubeEvent::StatusQueried(status(true)));
    assert!(creation.action().is_none());
    assert!(matches!(creation.outcome(), Ok(Ok(()))));
}

#[test]
fn minikube_creation_fails_as_its_first_failing_step() {
    let cluster = MinikubeCluster::new(1, None);

    let missing = cluster
        .create()
        .handle(MinikubeEvent::BinariesChecked(false))
        .handle(MinikubeEvent::DockerChecked(Ok(())));
    match missing.outcome() {
        Ok(Err(error)) => assert_eq!(error.message(), "missing dependencies"),
        other => panic!("ended as {:?}", other),
    }

    let without_docker = cluster
        .create()
        .handle(MinikubeEvent::BinariesChecked(true))
        .handle(MinikubeEvent::DockerChecked(Err(DockerError {
            message: "down".to_string(),
        })));
    match without_docker.outcome() {
        Ok(Err(error)) => assert_eq!(error.message(), "Docker error"),
        other => panic!("ended as {:?}", other),
    }

    let unstarted = cluster
        .create()
        .handle(MinikubeEvent::BinariesChecked(true))
        .handle(MinikubeEvent::DockerChecked(Ok(())))
        .handle(MinikubeEvent::Started(Err("not found".to_string())));
    match unstarted.outcome() {
        Ok(Err(error)) => assert_eq!(error.message(), "command error: not found"),
        other => panic!("ended as {:?}", other),
    }
}

#[test]
fn minikube_must_report_success() {
    let cluster = MinikubeCluster::new(1, None);
    let creation = cluster
        .create()
        .handle(MinikubeEvent::BinariesChecked(true))
        .handle(MinikubeEvent::DockerChecked(Ok(())))
        .handle(MinikubeEvent::Started(exit(false, "exit status: 14")));
    match creation.outcome() {
        Ok(Err(MinikubeClusterError::CmdError { error })) => assert_eq!(error, "exit status: 14"),
        other => panic!("ended as {:?}", other),
    }
}

#[test]
fn failed_minikube_query_ends_the_creation() {
    let cluster = MinikubeCluster::new(1, None);
    let creation = cluster
        .create_if_not_exists()
        .handle(MinikubeEvent::StatusQueried(Err(Error::from(
            ErrorKind::NotFound,
        ))));
    match creation.outcome() {
        Ok(Err(error)) => {
            assert!(matches!(error, MinikubeClusterError::IoError { .. }));
            assert_eq!(error.message(), "io error");
        }
        other => panic!("ended as {:?}", other),
    }
    assert_eq!(
        MinikubeCluster::check_if_cluster_exists(status(true)).unwrap(),
        true
    );
    assert_eq!(
        MinikubeCluster::check_if_cluster_exists(status(false)).unwrap(),
        false
    );
}

#[test]
fn unasked_minikube_events_change_nothing() {
    let cluster = MinikubeCluster::new(1, None);
    let creation = cluster.create().handle(MinikubeEvent::Started(exit(true, "exit status: 0")));
    assert!(matches!(
        creation.action(),
        Some(MinikubeAction::CheckBinaries { .. })
    ));
    assert!(creation.outcome().is_err());
}
