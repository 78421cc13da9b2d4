use std::cell::RefCell;

use instance_catalog::domain::model::{
    InstanceType, NodeGroupDto, NodegroupRequestDto, SecretDto, SecretRequestDto, ServiceError,
};
use instance_catalog::domain::ports::incoming::{
    NodegroupService, ProbesService, SecretService, TemplateService,
};
use instance_catalog::domain::ports::outgoing::{Repository, SealedSecretClient, VersionControl};
use instance_catalog::domain::services::kubernetes::nodegroups::{
    get_or_default, nodegroup_file, template_data, with_instance_type,
};
use instance_catalog::domain::services::kubernetes::secrets::{
    pull_request_branch, pull_request_title, sealed_secret_file,
};
use instance_catalog::domain::services::probes::DefaultProbesService;
use instance_catalog::domain::services::{DefaultNodegroupsService, DefaultSecretsService};
use instance_catalog::infrastructure::InMemoryStore;

fn m5() -> InstanceType {
    InstanceType {
        name: "m5.large".to_string(),
        family: "General purpose".to_string(),
        memory: 8 << 30,
        vcpu: 2,
        gpu: 0,
    }
}

fn nodegroup(name: &str, instance_name: Option<&str>) -> NodeGroupDto {
    NodeGroupDto {
        name: name.to_string(),
        instance_name: instance_name.map(String::from),
        min_size: Some(1),
        max_size: Some(5),
        ephemeral: Some("20Gi".to_string()),
        state: Some("Present".to_string()),
        instance_type: None,
    }
}

fn catalog() -> InMemoryStore<InstanceType> {
    let mut store = InMemoryStore::new();
    store.replace_all(vec![m5()]);
    store
}

struct Groups(Option<Vec<NodeGroupDto>>);

impl Repository<NodeGroupDto> for Groups {
    fn find_by(&self, name: &str) -> Option<NodeGroupDto> {
        self.0.as_ref()?.iter().find(|group| group.name == name).cloned()
    }

    fn find_all(&self) -> Option<Vec<NodeGroupDto>> {
        self.0.clone()
    }
}

struct Secrets(Vec<SecretDto>);

impl Repository<SecretDto> for Secrets {
    fn find_by(&self, name: &str) -> Option<SecretDto> {
        self.0.iter().find(|secret| secret.name == name).cloned()
    }

    fn find_all(&self) -> Option<Vec<SecretDto>> {
        Some(self.0.clone())
    }
}

struct Recorder<'a> {
    calls: &'a RefCell<Vec<String>>,
    failing: &'a str,
}

impl<'a> Recorder<'a> {
    fn record(&self, step: &str, call: String) -> Result<(), ServiceError> {
        self.calls.borrow_mut().push(call);
        if self.failing == step {
            Err(ServiceError::new(format!("{step} failed")))
        } else {
            Ok(())
        }
    }
}

impl<'a> VersionControl for Recorder<'a> {
    fn clone_repo(&self, destination_folder: Option<&str>) -> Result<String, ServiceError> {
        self.record("clone", format!("clone {destination_folder:?}")).map(|_| "/tmp/gitops/clusters".to_string())
    }

    fn auto_commit(&self, repository_path: String, message: String) -> Result<(), ServiceError> {
        self.record("commit", format!("commit {repository_path} | {message}"))
    }

    fn pull_request(
        &self,
        repository_path: String,
        commit_msg: String,
        title: String,
        body: String,
        pr_branch_name: String,
    ) -> Result<(), ServiceError> {
        self.record("pr", format!("pr {repository_path} | {commit_msg} | {title} | {body} | {pr_branch_name}"))
    }

    fn clean(&self, destination_folder: Option<&str>) -> Result<(), ServiceError> {
        self.record("clean", format!("clean {destination_folder:?}"))
    }
}

impl<'a> TemplateService for Recorder<'a> {
    fn render(&self, name: &str, values: &Vec<(String, String)>) -> Result<String, ServiceError> {
        self.record("render", format!("render {name} {values:?}")).map(|_| String::new())
    }

    fn write_to_file(&self, name: &str, values: &Vec<(String, String)>, file_path: &str) -> Result<(), ServiceError> {
        let values: Vec<String> = values.iter().map(|(k, v)| format!("{k}={v}")).collect();
        self.record("write", format!("write {name} [{}] to {file_path}", values.join(",")))
    }
}

impl<'a> SealedSecretClient for Recorder<'a> {
    fn save(&self, request: &SecretRequestDto, destination: Option<String>) -> Result<(), ServiceError> {
        self.record("save", format!("save {} to {destination:?}", request.name))
    }

    fn render(&self, request: &SecretRequestDto) -> Result<String, ServiceError> {
        self.record("seal", format!("seal {}", request.name)).map(|_| format!("sealed {}", request.name))
    }
}

fn request(skip_pull_request: bool) -> NodegroupRequestDto {
    NodegroupRequestDto {
        name: "batch".to_string(),
        default_instance_type: "m5.large".to_string(),
        alternate_instance_type: None,
        min_size: Some("1".to_string()),
        max_size: None,
        target_size: Some("3".to_string()),
        ephemeral: "20Gi".to_string(),
        skip_pull_request,
    }
}

#[test]
fn a_nodegroup_is_shown_with_the_instance_type_of_the_catalog() {
    let calls = RefCell::new(vec![]);
    let service = DefaultNodegroupsService::new(
        Groups(None),
        catalog(),
        Recorder { calls: &calls, failing: "" },
        Recorder { calls: &calls, failing: "" },
    );
    let shown = service.populate_nodegroup(nodegroup("batch", Some("m5.large")));
    assert_eq!(shown, NodeGroupDto { instance_type: Some(m5()), ..nodegroup("batch", Some("m5.large")) });
}

#[test]
fn a_nodegroup_that_the_catalog_does_not_know_is_shown_as_it_is() {
    let calls = RefCell::new(vec![]);
    let service = DefaultNodegroupsService::new(
        Groups(None),
        catalog(),
        Recorder { calls: &calls, failing: "" },
        Recorder { calls: &calls, failing: "" },
    );
    assert_eq!(service.populate_nodegroup(nodegroup("batch", Some("x9.huge"))), nodegroup("batch", Some("x9.huge")));
    assert_eq!(service.populate_nodegroup(nodegroup("batch", Some("M5.LARGE"))), nodegroup("batch", Some("M5.LARGE")));
    assert_eq!(service.populate_nodegroup(nodegroup("batch", None)), nodegroup("batch", None));
    let described = NodeGroupDto { instance_type: Some(m5()), ..nodegroup("old", None) };
    assert_eq!(service.populate_nodegroup(described.clone()), described);
}

#[test]
fn the_answer_of_the_catalog_decides_what_is_shown() {
    assert_eq!(
        with_instance_type(nodegroup("batch", Some("m5.large")), Ok(m5())),
        NodeGroupDto { instance_type: Some(m5()), ..nodegroup("batch", Some("m5.large")) }
    );
    assert_eq!(
        with_instance_type(nodegroup("batch", Some("m5.large")), Err(ServiceError::new("Key not found: m5.large".to_string()))),
        nodegroup("batch", Some("m5.large"))
    );
}

#[test]
fn nodegroups_are_read_from_the_repository() {
    let calls = RefCell::new(vec![]);
    let groups = vec![nodegroup("batch", Some("m5.large")), nodegroup("web", Some("c5.large")), nodegroup("bare", None)];
    let service = DefaultNodegroupsService::new(
        Groups(Some(groups.clone())),
        catalog(),
        Recorder { calls: &calls, failing: "" },
        Recorder { calls: &calls, failing: "" },
    );
    assert_eq!(service.get("missing"), None);
    assert_eq!(service.get("batch"), Some(NodeGroupDto { instance_type: Some(m5()), ..groups[0].clone() }));
    assert_eq!(service.get("web"), Some(groups[1].clone()));
    assert_eq!(
        service.list(),
        Some(vec![NodeGroupDto { instance_type: Some(m5()), ..groups[0].clone() }, groups[1].clone(), groups[2].clone()])
    );
    let empty = DefaultNodegroupsService::new(
        Groups(None),
        catalog(),
        Recorder { calls: &calls, failing: "" },
        Recorder { calls: &calls, failing: "" },
    );
    assert_eq!(empty.list(), None);
    assert_eq!(empty.get("batch"), None);
}

#[test]
fn a_missing_text_has_its_default() {
    assert_eq!(get_or_default(&Some("7".to_string()), "0"), "7");
    assert_eq!(get_or_default(&Some(String::new()), "0"), "");
    assert_eq!(get_or_default(&None, "0"), "0");
}

#[test]
fn the_template_is_filled_from_the_request() {
    let pairs = |data: Vec<(String, String)>| -> Vec<String> { data.into_iter().map(|(k, v)| format!("{k}={v}")).collect() };
    assert_eq!(
        pairs(template_data(&request(true))),
        vec!["NAME=batch", "EPHEMERAL_STORAGE=20Gi", "DEFAULT_INSTANCE_TYPE=m5.large", "MIN_SIZE=1", "MAX_SIZE=0", "TARGET_SIZE=3"]
    );
    let with_alternate = NodegroupRequestDto {
        alternate_instance_type: Some("m5a.large".to_string()),
        min_size: None,
        target_size: None,
        ..request(true)
    };
    assert_eq!(
        pairs(template_data(&with_alternate)),
        vec![
            "NAME=batch",
            "EPHEMERAL_STORAGE=20Gi",
            "DEFAULT_INSTANCE_TYPE=m5.large",
            "MIN_SIZE=0",
            "MAX_SIZE=0",
            "TARGET_SIZE=0",
            "ALTERNATE_INSTANCE_TYPE=m5a.large"
        ]
    );
    assert_eq!(nodegroup_file("/tmp/gitops/clusters", "batch"), "/tmp/gitops/clusters/infrastructure/_catalog/templates/nodegroup-batch.yaml");
}

#[test]
fn a_nodegroup_is_created_by_commit_or_by_pull_request() {
    let calls = RefCell::new(vec![]);
    let service = DefaultNodegroupsService::new(
        Groups(None),
        catalog(),
        Recorder { calls: &calls, failing: "" },
        Recorder { calls: &calls, failing: "" },
    );
    assert_eq!(service.create(&request(true)), Ok(()));
    assert_eq!(
        calls.take(),
        vec![
            "clone None",
            "write nodegroup [NAME=batch,EPHEMERAL_STORAGE=20Gi,DEFAULT_INSTANCE_TYPE=m5.large,MIN_SIZE=1,MAX_SIZE=0,TARGET_SIZE=3] to /tmp/gitops/clusters/infrastructure/_catalog/templates/nodegroup-batch.yaml",
            "commit /tmp/gitops/clusters | Directly commited a nodegroup from Rust back-end",
        ]
    );
    assert_eq!(service.create(&request(false)), Ok(()));
    assert_eq!(
        calls.take()[2],
        "pr /tmp/gitops/clusters | First commit message from RUST | Pr Title from Rust | Body of the PR | Test_branch_from_rust"
    );
}

#[test]
fn the_first_step_that_fails_ends_the_creation_of_a_nodegroup() {
    for (failing, steps) in [("clone", 1), ("write", 2), ("commit", 3)] {
        let calls = RefCell::new(vec![]);
        let service = DefaultNodegroupsService::new(
            Groups(None),
            catalog(),
            Recorder { calls: &calls, failing },
            Recorder { calls: &calls, failing },
        );
        assert_eq!(service.create(&request(true)), Err(ServiceError::new(format!("{failing} failed"))));
        assert_eq!(calls.take().len(), steps);
    }
}

#[test]
fn a_secret_is_created_by_commit_or_by_pull_request() {
    let calls = RefCell::new(vec![]);
    let service = DefaultSecretsService::new(
        Secrets(vec![]),
        Recorder { calls: &calls, failing: "" },
        Recorder { calls: &calls, failing: "" },
    );
    let secret = SecretRequestDto {
        name: "db".to_string(),
        literals: vec![("user".to_string(), "admin".to_string())],
        skip_pull_request: true,
    };
    assert_eq!(service.create(&secret), Ok(()));
    assert_eq!(
        calls.take(),
        vec![
            "clone None",
            "save db to Some(\"/tmp/gitops/clusters/infrastructure/_catalog/templates/sealed-secret-db.yaml\")",
            "commit /tmp/gitops/clusters | Directly commited a secret from Rust back-end",
        ]
    );
    let secret = SecretRequestDto { skip_pull_request: false, ..secret };
    assert_eq!(service.create(&secret), Ok(()));
    assert_eq!(
        calls.take()[2],
        "pr /tmp/gitops/clusters | Added a new secret from Rust back-end | Added secret db from Rust back-end | Body of the PR | add-secret-db"
    );
    assert_eq!(service.render(&secret), Ok("sealed db".to_string()));
}

#[test]
fn the_first_step_that_fails_ends_the_creation_of_a_secret() {
    let secret = SecretRequestDto { name: "db".to_string(), literals: vec![], skip_pull_request: false };
    for (failing, steps) in [("clone", 1), ("save", 2), ("pr", 3)] {
        let calls = RefCell::new(vec![]);
        let service = DefaultSecretsService::new(
            Secrets(vec![]),
            Recorder { calls: &calls, failing },
            Recorder { calls: &calls, failing },
        );
        assert_eq!(service.create(&secret), Err(ServiceError::new(format!("{failing} failed"))));
        assert_eq!(calls.take().len(), steps);
    }
}

#[test]
fn secrets_are_read_from_the_repository() {
    let calls = RefCell::new(vec![]);
    let db = SecretDto { name: "db".to_string(), namespace: "platform".to_string(), version: "1".to_string() };
    let service = DefaultSecretsService::new(
        Secrets(vec![db.clone()]),
        Recorder { calls: &calls, failing: "" },
        Recorder { calls: &calls, failing: "" },
    );
    assert_eq!(service.get("db"), Some(db.clone()));
    assert_eq!(service.get("other"), None);
    assert_eq!(service.list(), Some(vec![db]));
    assert_eq!(sealed_secret_file("/r", "db"), "/r/infrastructure/_catalog/templates/sealed-secret-db.yaml");
    assert_eq!(pull_request_title("db"), "Added secret db from Rust back-end");
    assert_eq!(pull_request_branch("db"), "add-secret-db");
}

#[test]
fn the_application_is_ready() {
    assert!(DefaultProbesService::new().is_ready());
}
