use instance_catalog::domain::model::{GitOpsConfig, NodeGroupDto, SecretDto, SecretRequestDto, ServiceError};
use instance_catalog::infrastructure::command::{choose_script, Invocation};
use instance_catalog::infrastructure::kubernetes::model::node_group_spec::state_named;
use instance_catalog::infrastructure::kubernetes::model::{
    NodeGroupInstanceTypes, NodeGroupSize, NodeGroupSpec, NodeGroupState, NodeGroupStatus,
    NodeGroupStorage,
};
use instance_catalog::infrastructure::kubernetes::transformations::{node_group_dto, secret_dto};
use instance_catalog::infrastructure::kubernetes::KubesealClient;
use instance_catalog::infrastructure::GitVersionControl;

fn config() -> GitOpsConfig {
    GitOpsConfig {
        repository_name: "clusters".to_string(),
        organization: "platform".to_string(),
        branch: "main".to_string(),
        destination_folder: "/tmp/gitops".to_string(),
        repository_path: "platform/clusters".to_string(),
    }
}

fn call(script: &str, arguments: &[&str], environment: &[(&str, &str)]) -> Invocation {
    Invocation {
        script: script.to_string(),
        arguments: arguments.iter().map(|a| a.to_string()).collect(),
        environment: environment.iter().map(|(k, v)| (k.to_string(), v.to_string())).collect(),
    }
}

#[test]
fn the_script_is_the_one_given_or_the_default() {
    assert_eq!(choose_script(&None, "./scripts/git_cli.sh"), "./scripts/git_cli.sh");
    assert_eq!(choose_script(&Some("/opt/git.sh".to_string()), "./scripts/git_cli.sh"), "/opt/git.sh");
}

#[test]
fn the_repository_is_cloned_into_the_folder() {
    let git = GitVersionControl::new(config(), None);
    assert_eq!(
        git.clone_repo(None),
        call("./scripts/git_cli.sh", &["clone", "platform/clusters", "/tmp/gitops", "main"], &[])
    );
    assert_eq!(
        git.clone_repo(Some("/work")),
        call("./scripts/git_cli.sh", &["clone", "platform/clusters", "/work", "main"], &[])
    );
    assert_eq!(git.cloned_path(None), "/tmp/gitops/clusters");
    assert_eq!(git.cloned_path(Some("/work")), "/work/clusters");
    assert_eq!(git.folder(None), "/tmp/gitops");
}

#[test]
fn commits_and_pull_requests_are_described_by_variables() {
    let git = GitVersionControl::new(config(), Some("/opt/git.sh".to_string()));
    assert_eq!(
        git.auto_commit("/tmp/gitops/clusters".to_string(), "add nodegroup".to_string()),
        call("/opt/git.sh", &["auto_commit"], &[("REPO_DIRECTORY", "/tmp/gitops/clusters"), ("COMMIT_MSG", "add nodegroup")])
    );
    assert_eq!(
        git.pull_request(
            "/tmp/gitops/clusters".to_string(),
            "add secret".to_string(),
            "Title".to_string(),
            "Body".to_string(),
            "add-secret-db".to_string()
        ),
        call(
            "/opt/git.sh",
            &["pull_request"],
            &[
                ("REPO_DIRECTORY", "/tmp/gitops/clusters"),
                ("COMMIT_MSG", "add secret"),
                ("PR_TITLE", "Title"),
                ("PR_BODY", "Body"),
                ("PR_BRANCH_NAME", "add-secret-db"),
                ("BASE_BRANCH", "main"),
            ]
        )
    );
    assert_eq!(git.clean(None), call("/opt/git.sh", &["clean", "/tmp/gitops"], &[]));
    assert_eq!(git.clean(Some("/work")), call("/opt/git.sh", &["clean", "/work"], &[]));
}

#[test]
fn a_secret_is_rendered_from_its_literals() {
    let request = SecretRequestDto {
        name: "db".to_string(),
        literals: vec![("user".to_string(), "admin".to_string()), ("password".to_string(), "a=b c".to_string())],
        skip_pull_request: false,
    };
    assert_eq!(KubesealClient::literals_argument(&request), " --from-literal=user=admin --from-literal=password=a=b c");
    assert_eq!(
        KubesealClient::new(None).render(&request),
        call(
            "./scripts/kubeseal_cli.sh",
            &["render", "db"],
            &[("LITERALS", " --from-literal=user=admin --from-literal=password=a=b c")]
        )
    );
    let empty = SecretRequestDto { name: "none".to_string(), literals: vec![], skip_pull_request: true };
    assert_eq!(KubesealClient::literals_argument(&empty), "");
    assert_eq!(
        KubesealClient::new(Some("/opt/seal.sh".to_string())).render(&empty),
        call("/opt/seal.sh", &["render", "none"], &[("LITERALS", "")])
    );
}

#[test]
fn the_output_of_the_script_is_its_result() {
    assert_eq!(KubesealClient::extract_output_result(true, "kind: SealedSecret".to_string()), Ok("kind: SealedSecret".to_string()));
    assert_eq!(
        KubesealClient::extract_output_result(false, "no cluster".to_string()),
        Err(ServiceError::new("Error in kubeseal script: no cluster".to_string()))
    );
    assert_eq!(KubesealClient::destination(Some("/r/secret.yaml".to_string())), "/r/secret.yaml");
    assert_eq!(KubesealClient::destination(None), "why_is_destination_an_option?");
}

#[test]
fn a_state_is_known_by_its_lowercase_name() {
    assert_eq!(NodeGroupState::from("present".to_string()), NodeGroupState::Present);
    assert_eq!(NodeGroupState::from("PRESENT".to_string()), NodeGroupState::Present);
    assert_eq!(NodeGroupState::from("Absent".to_string()), NodeGroupState::Absent);
    assert_eq!(NodeGroupState::from("pRoCeSsInG".to_string()), NodeGroupState::Processing);
    assert_eq!(NodeGroupState::from("invalid".to_string()), NodeGroupState::Invalid);
    assert_eq!(NodeGroupState::from("Deleting".to_string()), NodeGroupState::Unknown("Deleting".to_string()));
    assert_eq!(NodeGroupState::from("present ".to_string()), NodeGroupState::Unknown("present ".to_string()));
    assert_eq!(NodeGroupState::from(String::new()), NodeGroupState::Unknown(String::new()));
}

#[test]
fn a_state_is_shown_by_the_name_of_its_variant() {
    for state in [
        NodeGroupState::Present,
        NodeGroupState::Absent,
        NodeGroupState::Processing,
        NodeGroupState::Invalid,
        NodeGroupState::Unknown("Deleting".to_string()),
        NodeGroupState::Unknown("a \"quoted\" one\n\u{7f}'é".to_string()),
        NodeGroupState::Unknown(String::new()),
    ] {
        assert_eq!(state.to_text(), format!("{state:?}"));
    }
    assert_eq!(NodeGroupState::Present.to_text(), "Present");
    assert_eq!(NodeGroupState::Unknown("Deleting".to_string()).to_text(), "Unknown(\"Deleting\")");
}

#[test]
fn a_node_group_is_shown_from_its_resource() {
    let spec = NodeGroupSpec {
        size: Some(NodeGroupSize { max: Some(5), min: Some(1), target: Some(3) }),
        storage: Some(NodeGroupStorage { ephemeral: Some("20Gi".to_string()) }),
        instance_types: Some(NodeGroupInstanceTypes {
            default: "m5.large".to_string(),
            alternates: Some(vec!["m5a.large".to_string()]),
        }),
    };
    let status = NodeGroupStatus { state: Some(NodeGroupState::Processing) };
    assert_eq!(
        node_group_dto("batch".to_string(), spec, Some(status)),
        NodeGroupDto {
            name: "batch".to_string(),
            instance_name: Some("m5.large".to_string()),
            min_size: Some(1),
            max_size: Some(5),
            ephemeral: Some("20Gi".to_string()),
            state: Some("Processing".to_string()),
            instance_type: None,
        }
    );
    let bare = NodeGroupSpec { size: None, storage: None, instance_types: None };
    assert_eq!(
        node_group_dto("bare".to_string(), bare.clone(), None),
        NodeGroupDto {
            name: "bare".to_string(),
            instance_name: None,
            min_size: None,
            max_size: None,
            ephemeral: None,
            state: None,
            instance_type: None,
        }
    );
    assert_eq!(node_group_dto("bare".to_string(), bare, Some(NodeGroupStatus { state: None })).state, None);
}

#[test]
fn a_secret_is_shown_with_version_one() {
    assert_eq!(
        secret_dto("db".to_string(), "platform".to_string()),
        SecretDto { name: "db".to_string(), namespace: "platform".to_string(), version: "1".to_string() }
    );
}

#[test]
fn a_lowercase_name_names_its_state() {
    let reported = || "Reported".to_string();
    assert_eq!(state_named("present", reported()), NodeGroupState::Present);
    assert_eq!(state_named("absent", reported()), NodeGroupState::Absent);
    assert_eq!(state_named("processing", reported()), NodeGroupState::Processing);
    assert_eq!(state_named("invalid", reported()), NodeGroupState::Invalid);
    for name in ["Present", "PRESENT", "present ", "", "unknown", "presentabsent"] {
        assert_eq!(state_named(name, reported()), NodeGroupState::Unknown(reported()), "{name:?}");
    }
}
