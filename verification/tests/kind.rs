use std::io::{Error, ErrorKind};

use stackable_cockpit::command::{CommandOutput, ExitReport};
use stackable_cockpit::engine::kind::{
    KindAction, KindCluster, KindClusterError, KindCreation, KindEvent,
};
use stackable_cockpit::engine::DockerError;

fn io_error() -> Error {
    Error::from(ErrorKind::NotFound)
}

fn yaml_error() -> serde_yaml::Error {
    serde_yaml::from_str::<u8>("no number").unwrap_err()
}

fn printed(stdout: &[u8]) -> Result<CommandOutput, Error> {
    Ok(CommandOutput {
        success: true,
        stdout: stdout.to_vec(),
        stderr: Vec::new(),
    })
}

fn exit(success: bool, description: &str) -> Result<ExitReport, String> {
    Ok(ExitReport {
        success,
        description: description.to_string(),
    })
}

/// Plays `events` and tells how the creation ended, if it did.
fn play(creation: KindCreation<'_>, events: Vec<KindEvent>) -> Option<Result<(), KindClusterError>> {
    let mut creation = creation;
    for event in events {
        creation = creation.handle(event);
    }
    creation.outcome().ok()
}

/// The answers of a creation in which every step succeeds.
fn good_answers() -> Vec<KindEvent> {
    vec![
        KindEvent::BinariesChecked(None),
        KindEvent::DockerChecked(Ok(())),
        KindEvent::ConfigRendered(Ok("kind: Cluster\n".to_string())),
        KindEvent::Spawned(Ok(())),
        KindEvent::StdinTaken(true),
        KindEvent::Written(Ok(())),
        KindEvent::Flushed(Ok(())),
        KindEvent::StdinClosed,
        KindEvent::Exited(exit(true, "exit status: 0")),
    ]
}

#[test]
fn unnamed_clusters_get_the_default_name() {
    let cluster = KindCluster::new(3, 1, None);
    assert_eq!(cluster.get_name(), "stackable-data-platform");
    assert_eq!(cluster.get_node_count(), 3);
}

#[test]
fn named_clusters_keep_their_name() {
    let cluster = KindCluster::new(2, 1, Some("mine".to_string()));
    assert_eq!(cluster.get_name(), "mine");
    assert_eq!(cluster.get_node_count(), 2);
}

#[test]
fn kind_creation_asks_for_each_step_in_turn() {
    let cluster = KindCluster::new(3, 1, Some("mine".to_string()));
    let mut creation = cluster.create();
    let mut asked: Vec<String> = Vec::new();
    for event in good_answers() {
        let text = match creation.action() {
            Some(KindAction::List { command }) => format!("list {:?}", command.args),
            Some(KindAction::CheckBinaries { binaries }) => format!("binaries {:?}", binaries),
            Some(KindAction::CheckDocker) => "docker".to_string(),
            Some(KindAction::RenderConfig {
                node_count,
                cp_node_count,
            }) => format!("config {} {}", node_count, cp_node_count),
            Some(KindAction::Spawn { command }) => {
                format!("spawn {} {}", command.program, command.args.join(" "))
            }
            Some(KindAction::TakeStdin) => "stdin".to_string(),
            Some(KindAction::WriteConfig { config }) => format!("write {}", config),
            Some(KindAction::Flush) => "flush".to_string(),
            Some(KindAction::CloseStdin) => "close".to_string(),
            Some(KindAction::Wait) => "wait".to_string(),
            None => "nothing".to_string(),
        };
        asked.push(text);
        creation = creation.handle(event);
    }
    assert_eq!(
        asked,
        vec![
            "binaries [\"docker\", \"kind\"]",
            "docker",
            "config 3 1",
            "spawn kind create cluster --name mine --config -",
            "stdin",
            "write kind: Cluster\n",
            "flush",
            "close",
            "wait",
        ]
    );
    assert!(creation.action().is_none());
    assert!(matches!(creation.outcome(), Ok(Ok(()))));
}

#[test]
fn kind_creation_fails_as_its_first_failing_step() {
    let cluster = KindCluster::new(1, 1, None);
    let failures = vec![
        (
            KindEvent::BinariesChecked(Some("kind".to_string())),
            "missing required binary: kind",
        ),
        (
            KindEvent::DockerChecked(Err(DockerError {
                message: "down".to_string(),
            })),
            "docker error",
        ),
        (
            KindEvent::ConfigRendered(Err(yaml_error())),
            "failed to covert kind config to yaml",
        ),
        (KindEvent::Spawned(Err(io_error())), "io error"),
        (KindEvent::StdinTaken(false), "no stdin error"),
        (KindEvent::Written(Err(io_error())), "io error"),
        (KindEvent::Flushed(Err(io_error())), "io error"),
        (
            KindEvent::Exited(Err("interrupted".to_string())),
            "kind command error: interrupted",
        ),
    ];
    let steps = [0usize, 1, 2, 3, 4, 5, 6, 8];
    for (step, (failure, message)) in steps.into_iter().zip(failures) {
        let mut answers = good_answers();
        answers[step] = failure;
        let outcome = play(cluster.create(), answers);
        match outcome {
            Some(Err(error)) => assert_eq!(error.message(), message),
            other => panic!("step {} ended as {:?}", step, other),
        }
    }
}

#[test]
fn kind_must_report_success() {
    let cluster = KindCluster::new(1, 1, None);
    let mut answers = good_answers();
    answers[8] = KindEvent::Exited(exit(false, "exit status: 1"));
    match play(cluster.create(), answers) {
        Some(Err(KindClusterError::KindCommandError { error })) => {
            assert_eq!(error, "exit status: 1")
        }
        other => panic!("ended as {:?}", other),
    }
}

#[test]
fn kind_lists_clusters_before_creating_one() {
    let cluster = KindCluster::new(1, 1, Some("mine".to_string()));
    match cluster.create_if_not_exists().action() {
        Some(KindAction::List { command }) => {
            assert_eq!(command.program, "kind");
            assert_eq!(command.args, vec!["get", "clusters"]);
        }
        other => panic!("asked for {:?}", other),
    }
}

#[test]
fn existing_kind_cluster_is_left_alone() {
    let cluster = KindCluster::new(1, 1, Some("mine".to_string()));
    let creation = cluster
        .create_if_not_exists()
        .handle(KindEvent::Listed(printed(b"other\nmine\n")));
    assert!(creation.action().is_none());
    assert!(matches!(creation.outcome(), Ok(Ok(()))));
}

#[test]
fn absent_kind_cluster_is_created() {
    let cluster = KindCluster::new(1, 1, Some("mine".to_string()));
    let creation = cluster
        .create_if_not_exists()
        .handle(KindEvent::Listed(printed(b"mine-too\nnot mine\n")));
    assert!(matches!(
        creation.action(),
        Some(KindAction::CheckBinaries { .. })
    ));
    assert!(matches!(play(creation, good_answers()), Some(Ok(()))));
}

#[test]
fn failed_kind_listing_ends_the_creation() {
    let cluster = KindCluster::new(1, 1, None);
    let refused = cluster
        .create_if_not_exists()
        .handle(KindEvent::Listed(Ok(CommandOutput {
            success: false,
            stdout: b"stackable-data-platform\n".to_vec(),
            stderr: b"no \xff daemon".to_vec(),
        })));
    match refused.outcome() {
        Ok(Err(KindClusterError::KindCommandError { error })) => {
            assert_eq!(error, "no \u{FFFD} daemon")
        }
        other => panic!("ended as {:?}", other),
    }
    let unavailable = cluster
        .create_if_not_exists()
        .handle(KindEvent::Listed(Err(io_error())));
    assert!(matches!(
        unavailable.outcome(),
        Ok(Err(KindClusterError::IoError { .. }))
    ));
}

#[test]
fn kind_listings_are_read_as_text() {
    let cluster = KindCluster::new(1, 1, Some("m\u{fc}nchen".to_string()));
    let empty = cluster
        .create_if_not_exists()
        .handle(KindEvent::Listed(printed(b"")));
    assert!(matches!(
        empty.action(),
        Some(KindAction::CheckBinaries { .. })
    ));
    let listed = cluster
        .create_if_not_exists()
        .handle(KindEvent::Listed(printed("m\u{fc}nchen\n".as_bytes())));
    assert!(matches!(listed.outcome(), Ok(Ok(()))));
    let refused = cluster
        .create_if_not_exists()
        .handle(KindEvent::Listed(Ok(CommandOutput {
            success: false,
            stdout: Vec::new(),
            stderr: "kein D\u{e4}mon".as_bytes().to_vec(),
        })));
    match refused.outcome() {
        Ok(Err(KindClusterError::KindCommandError { error })) => {
            assert_eq!(error, "kein D\u{e4}mon")
        }
        other => panic!("ended as {:?}", other),
    }
}

#[test]
fn unasked_kind_events_change_nothing() {
    let cluster = KindCluster::new(1, 1, None);
    let creation = cluster
        .create()
        .handle(KindEvent::Exited(exit(true, "exit status: 0")))
        .handle(KindEvent::Spawned(Err(io_error())));
    assert!(matches!(
        creation.action(),
        Some(KindAction::CheckBinaries { .. })
    ));
    let ended = creation
        .handle(KindEvent::BinariesChecked(Some("docker".to_string())))
        .handle(KindEvent::DockerChecked(Ok(())));
    assert!(matches!(
        ended.outcome(),
        Ok(Err(KindClusterError::MissingBinaryError { .. }))
    ));
}

#[test]
fn cluster_names_are_whole_lines() {
    let exists = |name: &str, stdout: &[u8]| {
        KindCluster::check_if_cluster_exists(name, printed(stdout)).unwrap()
    };
    assert!(exists("a", b"a"));
    assert!(exists("a", b"a\n"));
    assert!(exists("a", b"b\r\na\r\n"));
    assert!(exists("", b"\n"));
    assert!(exists("a\r", b"a\r"));
    assert!(exists("a\u{FFFD}", b"a\xff\n"));
    assert!(!exists("a", b"ab\nba\n a"));
    assert!(!exists("", b""));
    assert!(!exists("", b"a\n"));
    assert!(!exists("a\r", b"a\r\n"));
}
