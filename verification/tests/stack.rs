use std::collections::HashMap;
use std::path::PathBuf;

use stackable_cockpit::common::ManifestSpec;
use stackable_cockpit::helm::{HelmChart, HelmChartRepo, HelmError};
use stackable_cockpit::kube::KubeClientError;
use stackable_cockpit::params::{IntoParametersError, Parameter};
use stackable_cockpit::path::{PathOrUrl, PathOrUrlParseError};
use stackable_cockpit::platform::cluster::{ResourceRequests, ResourceRequestsError};
use stackable_cockpit::platform::release::{ReleaseInstallError, ReleaseList};
use stackable_cockpit::platform::stack::manifests::{
    ManifestAction, ManifestEvent, ManifestInstallation, ManifestPhase,
};
use stackable_cockpit::platform::stack::spec::{Prerequisites, StackError, StackSpecV2};
use stackable_cockpit::xfer::FileTransferError;

fn texts(items: &[&str]) -> Vec<String> {
    items.iter().map(|item| item.to_string()).collect()
}

fn stack(namespaces: &[&str]) -> StackSpecV2 {
    StackSpecV2 {
        description: "A stack".to_string(),
        release: "23.4".to_string(),
        supported_namespaces: texts(namespaces),
        operators: texts(&["commons", "hdfs"]),
        labels: Vec::new(),
        manifests: vec![
            ManifestSpec::HelmChart("chart.yaml".to_string()),
            ManifestSpec::PlainYaml("plain.yaml".to_string()),
        ],
        resource_requests: None,
        parameters: vec![Parameter {
            name: "user".to_string(),
            description: "Who".to_string(),
            default: "admin".to_string(),
        }],
    }
}

fn requests() -> ResourceRequests {
    ResourceRequests {
        cpu: "2400m".to_string(),
        memory: "4010Mi".to_string(),
        pvc: "7Gi".to_string(),
    }
}

fn chart(options: &str) -> HelmChart {
    HelmChart {
        release_name: "minio".to_string(),
        name: "minio-chart".to_string(),
        repo: HelmChartRepo {
            name: "minio-repo".to_string(),
            url: "https://charts.min.io/".to_string(),
        },
        version: "4.0.2".to_string(),
        options: serde_yaml::from_str(options).unwrap(),
    }
}

fn path(name: &str) -> PathOrUrl {
    PathOrUrl::Path(PathBuf::from(name))
}

fn helm_error() -> HelmError {
    HelmError {
        message: "no helm".to_string(),
    }
}

fn kube_error() -> KubeClientError {
    KubeClientError {
        message: "no kube".to_string(),
    }
}

fn play<'a>(
    installation: ManifestInstallation<'a>,
    events: Vec<ManifestEvent>,
) -> ManifestInstallation<'a> {
    let mut installation = installation;
    for event in events {
        installation = installation.handle(event);
    }
    installation
}

fn failure(installation: ManifestInstallation<'_>) -> StackError {
    match installation.outcome() {
        Ok(Err(error)) => error,
        other => panic!("ended as {:?}", other),
    }
}

fn chart_answers() -> Vec<ManifestEvent> {
    vec![
        ManifestEvent::Located(Ok(path("chart.yaml"))),
        ManifestEvent::ChartFetched(Ok(chart("{rootUser: admin, replicas: 1}"))),
        ManifestEvent::RepoAdded(Ok(())),
        ManifestEvent::ChartInstalled(Ok(())),
    ]
}

fn yaml_answers() -> Vec<ManifestEvent> {
    vec![
        ManifestEvent::Located(Ok(path("plain.yaml"))),
        ManifestEvent::ManifestsFetched(Ok("kind: Pod\n".to_string())),
        ManifestEvent::Connected(Ok(())),
        ManifestEvent::Deployed(Ok(())),
    ]
}

#[test]
fn stacks_without_namespaces_run_anywhere() {
    assert!(stack(&[]).supports_namespace("default"));
    assert!(stack(&[]).supports_namespace(""));
    assert!(matches!(
        stack(&[]).check_prerequisites("anything"),
        Prerequisites::Met
    ));
}

#[test]
fn stacks_with_namespaces_run_only_there() {
    let stack = stack(&["a", "b"]);
    assert!(stack.supports_namespace("b"));
    assert!(!stack.supports_namespace("c"));
    match stack.check_prerequisites("c") {
        Prerequisites::Refused { error } => {
            assert_eq!(
                error.message(),
                "cannot install stack in namespace 'c', only 'a, b' supported"
            );
        }
        other => panic!("{:?}", other),
    }
}

#[test]
fn refused_namespaces_come_before_resources() {
    let mut stack = stack(&["a"]);
    stack.resource_requests = Some(requests());
    assert!(matches!(
        stack.check_prerequisites("b"),
        Prerequisites::Refused { .. }
    ));
    match stack.check_prerequisites("a") {
        Prerequisites::ClusterSize { requests, subject } => {
            assert_eq!(requests.cpu, "2400m");
            assert_eq!(subject, "stack");
        }
        other => panic!("{:?}", other),
    }
}

#[test]
fn lacking_resources_are_only_warnings() {
    assert_eq!(
        StackSpecV2::judge_cluster_size(Ok(())).unwrap(),
        Vec::<String>::new()
    );
    let lacking = ResourceRequestsError::ValidationErrors {
        errors: texts(&["not enough memory"]),
    };
    assert_eq!(
        StackSpecV2::judge_cluster_size(Err(lacking)).unwrap(),
        vec!["not enough memory"]
    );
    let unknown = ResourceRequestsError::Undetermined {
        message: "no cluster".to_string(),
    };
    let error = StackSpecV2::judge_cluster_size(Err(unknown)).unwrap_err();
    assert_eq!(error.message(), "stack resource requests error");
}

#[test]
fn releases_are_found_by_name() {
    let stack = stack(&[]);
    let list = ReleaseList {
        names: texts(&["23.1", "23.4"]),
    };
    let found = stack
        .install_release(&list, "operators", "default", false)
        .unwrap()
        .unwrap();
    assert_eq!(found.release, "23.4");
    assert_eq!(found.included, &texts(&["commons", "hdfs"]));
    assert!(found.excluded.is_empty());
    assert_eq!(found.operator_namespace, "operators");

    let other = ReleaseList {
        names: texts(&["23.1"]),
    };
    let missing = stack
        .install_release(&other, "operators", "default", false)
        .unwrap_err();
    assert_eq!(missing.message(), "no such stack");
    assert!(stack
        .install_release(&other, "operators", "default", true)
        .unwrap()
        .is_none());
}

#[test]
fn failed_releases_fail_the_stack() {
    assert!(StackSpecV2::judge_release_install(Ok(())).is_ok());
    let error = StackSpecV2::judge_release_install(Err(ReleaseInstallError {
        message: "timeout".to_string(),
    }))
    .unwrap_err();
    assert_eq!(error.message(), "release install error: timeout");
}

#[test]
fn stack_manifests_are_installed_in_order() {
    let stack = stack(&[]);
    let given = texts(&["user=me"]);
    let installation = stack.install_stack_manifests(&given, "default");
    match installation.action() {
        Some(ManifestAction::ResolveParameters { given, valid }) => {
            assert_eq!(given, texts(&["user=me"]).as_slice());
            assert_eq!(valid.len(), 1);
            assert_eq!(valid[0].name, "user");
        }
        other => panic!("asked for {:?}", other),
    }
    let resolved = HashMap::from([("user".to_string(), "me".to_string())]);
    let installation = installation.handle(ManifestEvent::ParametersResolved(Ok(resolved)));
    match installation.action() {
        Some(ManifestAction::Locate { location }) => assert_eq!(location, "chart.yaml"),
        other => panic!("asked for {:?}", other),
    }
    let mut answers = chart_answers().into_iter();
    let installation = installation.handle(answers.next().unwrap());
    match installation.action() {
        Some(ManifestAction::FetchChart {
            location,
            parameters,
        }) => {
            assert!(matches!(location, PathOrUrl::Path(_)));
            assert_eq!(parameters["user"], "me");
        }
        other => panic!("asked for {:?}", other),
    }
    let installation = installation.handle(answers.next().unwrap());
    match installation.action() {
        Some(ManifestAction::AddRepo { name, url }) => {
            assert_eq!(name, "minio-repo");
            assert_eq!(url, "https://charts.min.io/");
        }
        other => panic!("asked for {:?}", other),
    }
    let installation = installation.handle(answers.next().unwrap());
    match installation.action() {
        Some(ManifestAction::InstallChart {
            operator_name,
            release_name,
            chart,
            values,
            namespace,
            suppress_output,
        }) => {
            assert_eq!(operator_name, "minio");
            assert_eq!(release_name, "minio");
            assert_eq!(chart.repo_name, "minio-repo");
            assert_eq!(chart.chart_name, "minio-chart");
            assert_eq!(chart.chart_version.unwrap(), "4.0.2");
            assert_eq!(values.unwrap(), "rootUser: admin\nreplicas: 1\n");
            assert_eq!(namespace, "default");
            assert!(!suppress_output);
        }
        other => panic!("asked for {:?}", other),
    }
    let installation = installation.handle(answers.next().unwrap());
    match installation.action() {
        Some(ManifestAction::Locate { location }) => assert_eq!(location, "plain.yaml"),
        other => panic!("asked for {:?}", other),
    }
    let mut answers = yaml_answers().into_iter();
    let installation = installation.handle(answers.next().unwrap());
    match installation.action() {
        Some(ManifestAction::FetchManifests { parameters, .. }) => {
            assert_eq!(parameters["user"], "me")
        }
        other => panic!("asked for {:?}", other),
    }
    let installation = installation.handle(answers.next().unwrap());
    assert!(matches!(
        installation.action(),
        Some(ManifestAction::Connect)
    ));
    let installation = installation.handle(answers.next().unwrap());
    match installation.action() {
        Some(ManifestAction::Deploy {
            manifests,
            namespace,
        }) => {
            assert_eq!(manifests, "kind: Pod\n");
            assert_eq!(namespace, "default");
        }
        other => panic!("asked for {:?}", other),
    }
    let installation = installation.handle(answers.next().unwrap());
    assert!(installation.action().is_none());
    assert!(matches!(installation.outcome(), Ok(Ok(()))));
}

#[test]
fn unusable_parameters_end_the_installation() {
    let stack = stack(&[]);
    let demo = vec![ManifestSpec::PlainYaml("demo.yaml".to_string())];
    let valid: Vec<Parameter> = Vec::new();
    let given = texts(&["user=me"]);
    let installation = stack
        .install_demo_manifests(&demo, &valid, &given, "default")
        .handle(ManifestEvent::ParametersResolved(Err(
            IntoParametersError {
                message: "unknown parameter user".to_string(),
            },
        )));
    assert!(installation.action().is_none());
    assert_eq!(
        failure(installation).message(),
        "parameter parse error: unknown parameter user"
    );
}

#[test]
fn demo_manifests_replace_those_of_the_stack() {
    let stack = stack(&[]);
    let demo = vec![ManifestSpec::PlainYaml("demo.yaml".to_string())];
    let valid: Vec<Parameter> = Vec::new();
    let given: Vec<String> = Vec::new();
    let installation = stack
        .install_demo_manifests(&demo, &valid, &given, "default")
        .handle(ManifestEvent::ParametersResolved(Ok(HashMap::new())));
    match installation.action() {
        Some(ManifestAction::Locate { location }) => assert_eq!(location, "demo.yaml"),
        other => panic!("asked for {:?}", other),
    }
    let installation = play(installation, yaml_answers());
    assert!(matches!(installation.outcome(), Ok(Ok(()))));
}

#[test]
fn without_manifests_there_is_nothing_to_do() {
    let none: Vec<ManifestSpec> = Vec::new();
    let installation = StackSpecV2::install_manifests(&none, HashMap::new(), "default");
    assert!(installation.action().is_none());
    assert!(matches!(installation.outcome(), Ok(Ok(()))));
}

#[test]
fn failing_charts_end_the_installation() {
    let manifests = vec![
        ManifestSpec::HelmChart("chart.yaml".to_string()),
        ManifestSpec::PlainYaml("plain.yaml".to_string()),
    ];
    let failures = vec![
        (
            ManifestEvent::Located(Err(PathOrUrlParseError {
                message: "bad".to_string(),
            })),
            "path or url parse error",
        ),
        (
            ManifestEvent::ChartFetched(Err(FileTransferError::FileNameError)),
            "transfer error",
        ),
        (
            ManifestEvent::RepoAdded(Err(helm_error())),
            "Helm error: no helm",
        ),
        (
            ManifestEvent::ChartInstalled(Err(helm_error())),
            "Helm error: no helm",
        ),
    ];
    for (step, (event, message)) in failures.into_iter().enumerate() {
        let mut answers = chart_answers();
        answers[step] = event;
        let installation = StackSpecV2::install_manifests(&manifests, HashMap::new(), "default");
        let installation = play(play(installation, answers), yaml_answers());
        assert_eq!(failure(installation).message(), message);
    }
}

#[test]
fn failing_yaml_ends_the_installation() {
    let manifests = vec![ManifestSpec::PlainYaml("plain.yaml".to_string())];
    let failures = vec![
        (
            ManifestEvent::Located(Err(PathOrUrlParseError {
                message: "bad".to_string(),
            })),
            "path or url parse error",
        ),
        (
            ManifestEvent::ManifestsFetched(Err(FileTransferError::FileNameError)),
            "transfer error",
        ),
        (
            ManifestEvent::Connected(Err(kube_error())),
            "kube error: no kube",
        ),
        (
            ManifestEvent::Deployed(Err(kube_error())),
            "kube error: no kube",
        ),
    ];
    for (step, (event, message)) in failures.into_iter().enumerate() {
        let mut answers = yaml_answers();
        answers[step] = event;
        let installation = StackSpecV2::install_manifests(&manifests, HashMap::new(), "default");
        assert_eq!(failure(play(installation, answers)).message(), message);
    }
}

#[test]
fn options_without_a_yaml_form_end_the_installation() {
    let manifests = vec![ManifestSpec::HelmChart("chart.yaml".to_string())];
    let nested = serde_yaml::Value::Tagged(Box::new(serde_yaml::value::TaggedValue {
        tag: serde_yaml::value::Tag::new("outer"),
        value: serde_yaml::Value::Tagged(Box::new(serde_yaml::value::TaggedValue {
            tag: serde_yaml::value::Tag::new("inner"),
            value: serde_yaml::Value::Bool(true),
        })),
    }));
    let mut unwritable = chart("{}");
    unwritable.options = nested;
    let installation = StackSpecV2::install_manifests(&manifests, HashMap::new(), "default")
        .handle(ManifestEvent::Located(Ok(path("chart.yaml"))))
        .handle(ManifestEvent::ChartFetched(Ok(unwritable)))
        .handle(ManifestEvent::RepoAdded(Ok(())));
    match failure(installation) {
        StackError::YamlError { source } => {
            let expected = format!("yaml error: {}", source);
            assert_eq!(StackError::YamlError { source }.message(), expected);
        }
        other => panic!("ended with {:?}", other),
    }
}

#[test]
fn written_options_are_installed() {
    let phase = ManifestPhase::with_values(chart("{}"), Ok("a: 1\n".to_string()));
    match phase {
        ManifestPhase::InstallChart { chart, values } => {
            assert_eq!(chart.name, "minio-chart");
            assert_eq!(values, "a: 1\n");
        }
        other => panic!("{:?}", other),
    }
    let error = serde_yaml::from_str::<u8>("x").unwrap_err();
    assert!(matches!(
        ManifestPhase::with_values(chart("{}"), Err(error)),
        ManifestPhase::Finished {
            outcome: Err(StackError::YamlError { .. })
        }
    ));
}

#[test]
fn unasked_manifest_events_change_nothing() {
    let manifests = vec![ManifestSpec::HelmChart("chart.yaml".to_string())];
    let installation = StackSpecV2::install_manifests(&manifests, HashMap::new(), "default")
        .handle(ManifestEvent::Deployed(Ok(())))
        .handle(ManifestEvent::ParametersResolved(Err(
            IntoParametersError {
                message: "late".to_string(),
            },
        )))
        .handle(ManifestEvent::Located(Ok(path("chart.yaml"))))
        .handle(ManifestEvent::ManifestsFetched(Ok("text".to_string())));
    assert!(matches!(
        installation.action(),
        Some(ManifestAction::FetchChart { .. })
    ));
    assert!(installation.outcome().is_err());
}

fn manifest_list() -> Vec<ManifestSpec> {
    vec![
        ManifestSpec::HelmChart("chart.yaml".to_string()),
        ManifestSpec::PlainYaml("plain.yaml".to_string()),
        ManifestSpec::HelmChart("chart.yaml".to_string()),
    ]
}

fn manifest_answers() -> Vec<Vec<ManifestEvent>> {
    vec![chart_answers(), yaml_answers(), chart_answers()]
}

fn asked(installation: &ManifestInstallation<'_>) -> String {
    format!("{:?}", installation.action())
}

#[test]
fn lists_end_with_the_first_failing_manifest() {
    let manifests = manifest_list();
    let installation = StackSpecV2::install_manifests(&manifests, HashMap::new(), "default");
    let installation = play(
        installation,
        manifest_answers().into_iter().flatten().collect(),
    );
    assert!(matches!(installation.outcome(), Ok(Ok(()))));

    let mut answers = manifest_answers();
    answers[1][2] = ManifestEvent::Connected(Err(kube_error()));
    answers[2][3] = ManifestEvent::ChartInstalled(Err(helm_error()));
    let mut installation = StackSpecV2::install_manifests(&manifests, HashMap::new(), "default");
    for (step, event) in answers.into_iter().flatten().enumerate() {
        assert_eq!(installation.action().is_some(), step <= 6);
        installation = installation.handle(event);
    }
    assert!(installation.action().is_none());
    assert_eq!(failure(installation).message(), "kube error: no kube");
}

#[test]
fn lists_go_on_where_their_first_part_ended_well() {
    let whole_list = manifest_list();
    let later_list = manifest_list().split_off(1);
    let mut first_list = manifest_list();
    first_list.truncate(1);
    let parameters = || HashMap::from([("user".to_string(), "admin".to_string())]);

    let mut whole = StackSpecV2::install_manifests(&whole_list, parameters(), "default");
    let mut first = StackSpecV2::install_manifests(&first_list, parameters(), "default");
    for (event, same) in chart_answers().into_iter().zip(chart_answers()) {
        assert_eq!(asked(&whole), asked(&first));
        whole = whole.handle(event);
        first = first.handle(same);
    }
    assert!(matches!(first.outcome(), Ok(Ok(()))));

    let mut later = StackSpecV2::install_manifests(&later_list, parameters(), "default");
    let mut answers = yaml_answers();
    answers.extend(chart_answers());
    let mut same_answers = yaml_answers();
    same_answers.extend(chart_answers());
    for (event, same) in answers.into_iter().zip(same_answers) {
        assert!(whole.action().is_some());
        assert_eq!(asked(&whole), asked(&later));
        whole = whole.handle(event);
        later = later.handle(same);
    }
    assert!(matches!(whole.outcome(), Ok(Ok(()))));
    assert!(matches!(later.outcome(), Ok(Ok(()))));
}
