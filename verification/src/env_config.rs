//! The application's configuration, as the environment gives it.
//!
//! The variables are handed over once, as pairs of a name and a value; what
//! is configured is read from them.

use crate::domain::model::config::GitOpsConfig;
use vstd::prelude::*;

verus! {

pub const APP_NAME_VAR: &'static str = "APP_NAME";

pub const APP_VERSION_VAR: &'static str = "APP_VERSION";

pub const NAMESPACE_VAR: &'static str = "NAMESPACE";

pub const GITOPS_ORGANIZATION_VAR: &'static str = "GITPOS_ORGANIZATION";

pub const GITOPS_REPO_VAR: &'static str = "GITPOS_REPO";

pub const GITOPS_DESTINATION_FOLDER_VAR: &'static str = "GITPOS_DESTINATION_FOLDER";

pub const GITOPS_BRANCH_VAR: &'static str = "GITPOS_BRANCH";

pub const STORES_PATH_VAR: &'static str = "STORES_PATH";

pub const INSTANCE_TYPES_FILE_SOURCE_VAR: &'static str = "INSTANCE_TYPES_FILE_SOURCE";

/// What the configuration lacks.
#[derive(Debug, PartialEq, Eq, Clone)]
pub enum EnvConfigError {
    /// The variable of this name is not set, or is set to the empty text.
    MissingEnvVar(String),
}

/// The variables of an environment as characters.
pub type Variables = Seq<(Seq<char>, Seq<char>)>;

/// The value that the first pair named `name` gives, if there is one.
pub open spec fn variable(variables: Variables, name: Seq<char>) -> Option<Seq<char>>
    decreases variables.len(),
{
    if variables.len() == 0 {
        None
    } else if variables.first().0 == name {
        Some(variables.first().1)
    } else {
        variable(variables.drop_first(), name)
    }
}

/// The setting `name`: its value where the variable is set to a text that
/// is not empty, `None` where it is missing.
pub open spec fn setting(variables: Variables, name: Seq<char>) -> Option<Seq<char>> {
    match variable(variables, name) {
        Some(value) => if value.len() > 0 {
            Some(value)
        } else {
            None
        },
        None => None,
    }
}

/// Whether `read` is the setting `name`: its value, or the failure that
/// names the variable where it is missing.
pub open spec fn reads_setting(
    read: Result<String, EnvConfigError>,
    variables: Variables,
    name: Seq<char>,
) -> bool {
    match setting(variables, name) {
        Some(value) => read matches Ok(text) && text@ == value,
        None => read matches Err(EnvConfigError::MissingEnvVar(missing)) && missing@ == name,
    }
}

/// Helper providing application configuration injected through the
/// environment variables.
#[derive(Debug, Clone)]
pub struct EnvConfig {
    variables: Vec<(String, String)>,
}

impl View for EnvConfig {
    type V = Variables;

    /// The variables, in the order in which they were given.
    closed spec fn view(&self) -> Variables {
        self.variables@.map_values(|pair: (String, String)| (pair.0@, pair.1@))
    }
}

impl EnvConfig {
    /// The configuration that the given variables make.
    pub fn new(variables: Vec<(String, String)>) -> (config: Self)
        ensures
            config@ == variables@.map_values(|pair: (String, String)| (pair.0@, pair.1@)),
    {
        Self { variables }
    }

    /// The setting `name`.
    pub fn var(&self, name: &str) -> (read: Result<String, EnvConfigError>)
        ensures
            reads_setting(read, self@, name@),
    {
        let wanted = name.to_owned();
        let mut i: usize = 0;
        proof {
            assert(self@.skip(0) =~= self@);
        }
        while i < self.variables.len()
            invariant
                0 <= i <= self.variables.len(),
                wanted@ == name@,
                variable(self@, name@) == variable(self@.skip(i as int), name@),
            decreases self.variables.len() - i,
        {
            proof {
                let rest = self@.skip(i as int);
                assert(rest.first() == (self.variables@[i as int].0@, self.variables@[i as int].1@));
                assert(rest.drop_first() =~= self@.skip(i as int + 1));
            }
            if self.variables[i].0 == wanted {
                let value = &self.variables[i].1;
                if value.as_str().unicode_len() > 0 {
                    return Ok(value.clone());
                } else {
                    return Err(EnvConfigError::MissingEnvVar(wanted));
                }
            }
            i = i + 1;
        }
        proof {
            assert(self@.skip(i as int).len() == 0);
        }
        Err(EnvConfigError::MissingEnvVar(wanted))
    }

    /// The name of the application.
    pub fn app_name(&self) -> (read: Result<String, EnvConfigError>)
        ensures
            reads_setting(read, self@, APP_NAME_VAR@),
    {
        self.var(APP_NAME_VAR)
    }

    /// The version of the application.
    pub fn app_version(&self) -> (read: Result<String, EnvConfigError>)
        ensures
            reads_setting(read, self@, APP_VERSION_VAR@),
    {
        self.var(APP_VERSION_VAR)
    }

    /// The namespace that the application works in.
    pub fn namespace(&self) -> (read: Result<String, EnvConfigError>)
        ensures
            reads_setting(read, self@, NAMESPACE_VAR@),
    {
        self.var(NAMESPACE_VAR)
    }

    /// The GitOps repository: its organization, name, destination folder and
    /// branch, each from its variable, and its path `organization/name`.
    /// Where one of them is missing, the first in that order is reported.
    pub fn gitops_config(&self) -> (read: Result<GitOpsConfig, EnvConfigError>)
        ensures
            match (
                setting(self@, GITOPS_ORGANIZATION_VAR@),
                setting(self@, GITOPS_REPO_VAR@),
                setting(self@, GITOPS_DESTINATION_FOLDER_VAR@),
                setting(self@, GITOPS_BRANCH_VAR@),
            ) {
                (Some(organization), Some(repository_name), Some(destination_folder), Some(branch)) => {
                    &&& read matches Ok(config)
                    &&& config.organization@ == organization
                    &&& config.repository_name@ == repository_name
                    &&& config.destination_folder@ == destination_folder
                    &&& config.branch@ == branch
                    &&& config.repository_path@ == organization + "/"@ + repository_name
                },
                (None, _, _, _) => read matches Err(EnvConfigError::MissingEnvVar(missing))
                    && missing@ == GITOPS_ORGANIZATION_VAR@,
                (Some(_), None, _, _) => read matches Err(EnvConfigError::MissingEnvVar(missing))
                    && missing@ == GITOPS_REPO_VAR@,
                (Some(_), Some(_), None, _) => read matches Err(
                    EnvConfigError::MissingEnvVar(missing),
                ) && missing@ == GITOPS_DESTINATION_FOLDER_VAR@,
                (Some(_), Some(_), Some(_), None) => read matches Err(
                    EnvConfigError::MissingEnvVar(missing),
                ) && missing@ == GITOPS_BRANCH_VAR@,
            },
    {
        let organization = match self.var(GITOPS_ORGANIZATION_VAR) {
            Ok(value) => value,
            Err(missing) => {
                return Err(missing);
            },
        };
        let repository_name = match self.var(GITOPS_REPO_VAR) {
            Ok(value) => value,
            Err(missing) => {
                return Err(missing);
            },
        };
        let destination_folder = match self.var(GITOPS_DESTINATION_FOLDER_VAR) {
            Ok(value) => value,
            Err(missing) => {
                return Err(missing);
            },
        };
        let branch = match self.var(GITOPS_BRANCH_VAR) {
            Ok(value) => value,
            Err(missing) => {
                return Err(missing);
            },
        };
        let repository_path = organization.clone().concat("/").concat(repository_name.as_str());
        Ok(
            GitOpsConfig {
                repository_name,
                organization,
                branch,
                destination_folder,
                repository_path,
            },
        )
    }

    /// Where the stores are kept: the setting `STORES_PATH`, or `fallback`
    /// where it is missing.
    pub fn stores_path(&self, fallback: String) -> (path: String)
        ensures
            path@ == match setting(self@, STORES_PATH_VAR@) {
                Some(value) => value,
                None => fallback@,
            },
    {
        match self.var(STORES_PATH_VAR) {
            Ok(value) => value,
            Err(_) => fallback,
        }
    }

    /// The file that the pricing list is read from: the setting
    /// `INSTANCE_TYPES_FILE_SOURCE`, or `fallback` where it is missing, or
    /// the failure that names the variable where there is no fallback
    /// either.
    pub fn instance_types_file_source(&self, fallback: Option<String>) -> (read: Result<
        String,
        EnvConfigError,
    >)
        ensures
            match (setting(self@, INSTANCE_TYPES_FILE_SOURCE_VAR@), fallback) {
                (Some(value), _) => read matches Ok(path) && path@ == value,
                (None, Some(path)) => read == Ok::<String, EnvConfigError>(path),
                (None, None) => read matches Err(EnvConfigError::MissingEnvVar(missing))
                    && missing@ == INSTANCE_TYPES_FILE_SOURCE_VAR@,
            },
    {
        match self.var(INSTANCE_TYPES_FILE_SOURCE_VAR) {
            Ok(value) => Ok(value),
            Err(missing) => match fallback {
                Some(path) => Ok(path),
                None => Err(missing),
            },
        }
    }
}

} // verus!
