use instance_catalog::domain::model::GitOpsConfig;
use instance_catalog::env_config::{EnvConfig, EnvConfigError};

fn config(variables: &[(&str, &str)]) -> EnvConfig {
    EnvConfig::new(variables.iter().map(|(k, v)| (k.to_string(), v.to_string())).collect())
}

fn missing(name: &str) -> EnvConfigError {
    EnvConfigError::MissingEnvVar(name.to_string())
}

#[test]
fn a_variable_that_is_set_is_read() {
    let env = config(&[("APP_NAME", "catalog"), ("APP_VERSION", "1.2.3"), ("NAMESPACE", "platform")]);
    assert_eq!(env.app_name(), Ok("catalog".to_string()));
    assert_eq!(env.app_version(), Ok("1.2.3".to_string()));
    assert_eq!(env.namespace(), Ok("platform".to_string()));
    assert_eq!(env.var("NAMESPACE"), Ok("platform".to_string()));
}

#[test]
fn a_variable_that_is_unset_or_empty_is_missing() {
    let env = config(&[("APP_NAME", ""), ("namespace", "platform"), ("APP_VERSION ", "1")]);
    assert_eq!(env.app_name(), Err(missing("APP_NAME")));
    assert_eq!(env.app_version(), Err(missing("APP_VERSION")));
    assert_eq!(env.namespace(), Err(missing("NAMESPACE")));
    assert_eq!(config(&[]).var("HOME"), Err(missing("HOME")));
}

#[test]
fn of_a_variable_given_twice_the_first_counts() {
    let env = config(&[("APP_NAME", "first"), ("APP_NAME", "second")]);
    assert_eq!(env.app_name(), Ok("first".to_string()));
    let env = config(&[("APP_NAME", ""), ("APP_NAME", "second")]);
    assert_eq!(env.app_name(), Err(missing("APP_NAME")));
}

#[test]
fn the_gitops_repository_is_read_from_its_four_variables() {
    let env = config(&[
        ("GITPOS_BRANCH", "main"),
        ("GITPOS_REPO", "clusters"),
        ("GITPOS_ORGANIZATION", "platform"),
        ("GITPOS_DESTINATION_FOLDER", "/tmp/gitops"),
    ]);
    assert_eq!(
        env.gitops_config(),
        Ok(GitOpsConfig {
            repository_name: "clusters".to_string(),
            organization: "platform".to_string(),
            branch: "main".to_string(),
            destination_folder: "/tmp/gitops".to_string(),
            repository_path: "platform/clusters".to_string(),
        })
    );
}

#[test]
fn the_first_missing_gitops_variable_is_reported() {
    let all = [
        ("GITPOS_ORGANIZATION", "platform"),
        ("GITPOS_REPO", "clusters"),
        ("GITPOS_DESTINATION_FOLDER", "/tmp/gitops"),
        ("GITPOS_BRANCH", "main"),
    ];
    for first_missing in 0..all.len() {
        let given: Vec<(&str, &str)> =
            all.iter().enumerate().filter(|(i, _)| *i != first_missing).map(|(_, pair)| *pair).collect();
        assert_eq!(config(&given).gitops_config(), Err(missing(all[first_missing].0)));
        let mut emptied = all.to_vec();
        emptied[first_missing].1 = "";
        assert_eq!(config(&emptied).gitops_config(), Err(missing(all[first_missing].0)));
    }
    assert_eq!(config(&[("GITOPS_ORGANIZATION", "platform")]).gitops_config(), Err(missing("GITPOS_ORGANIZATION")));
}

#[test]
fn paths_fall_back_where_their_variable_is_missing() {
    let env = config(&[("STORES_PATH", "/var/stores"), ("INSTANCE_TYPES_FILE_SOURCE", "/data/list.json")]);
    assert_eq!(env.stores_path("/tmp/stores".to_string()), "/var/stores");
    assert_eq!(env.instance_types_file_source(Some("./pricing-list.json".to_string())), Ok("/data/list.json".to_string()));
    assert_eq!(env.instance_types_file_source(None), Ok("/data/list.json".to_string()));
    let env = config(&[("STORES_PATH", "")]);
    assert_eq!(env.stores_path("/tmp/stores".to_string()), "/tmp/stores");
    assert_eq!(env.instance_types_file_source(Some("./pricing-list.json".to_string())), Ok("./pricing-list.json".to_string()));
    assert_eq!(env.instance_types_file_source(None), Err(missing("INSTANCE_TYPES_FILE_SOURCE")));
}
