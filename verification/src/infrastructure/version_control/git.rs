//! The GitOps repository, worked on through a command-line script.

use crate::domain::model::config::GitOpsConfig;
use crate::infrastructure::command::{choose_script, chosen_script, Invocation, InvocationView};
use vstd::prelude::*;

verus! {

pub const GIT_CLI: &'static str = "./scripts/git_cli.sh";

pub const CLONE_CMD: &'static str = "clone";

pub const PULL_REQUEST_CMD: &'static str = "pull_request";

pub const AUTO_COMMIT_CMD: &'static str = "auto_commit";

pub const CLEAN_CMD: &'static str = "clean";

/// The folder that an operation works in: the one asked for, or the one
/// configured.
pub open spec fn working_folder(asked: Option<&str>, config: GitOpsConfig) -> Seq<char> {
    match asked {
        Some(folder) => folder@,
        None => config.destination_folder@,
    }
}

/// The calls of the git script that the operations on the GitOps repository
/// come to.
#[derive(Clone)]
pub struct GitVersionControl {
    config: GitOpsConfig,
    cli_script_path: Option<String>,
}

impl GitVersionControl {
    /// The repository worked on.
    pub closed spec fn config_view(&self) -> GitOpsConfig {
        self.config
    }

    /// The script that is run.
    pub closed spec fn script_view(&self) -> Seq<char> {
        chosen_script(self.cli_script_path, GIT_CLI@)
    }

    /// Version control of the repository of `config`, through the script at
    /// `cli_script_path` or, where none is given, the default script.
    pub fn new(config: GitOpsConfig, cli_script_path: Option<String>) -> (client: Self)
        ensures
            client.config_view() == config,
            client.script_view() == chosen_script(cli_script_path, GIT_CLI@),
    {
        GitVersionControl { config, cli_script_path }
    }

    /// The folder that an operation works in, see [`working_folder`].
    pub fn folder(&self, destination_folder: Option<&str>) -> (folder: String)
        ensures
            folder@ == working_folder(destination_folder, self.config_view()),
    {
        match destination_folder {
            Some(folder) => String::from_str(folder),
            None => self.config.destination_folder.clone(),
        }
    }

    /// The call that clones the repository: `clone`, the repository path,
    /// the folder and the branch.
    pub fn clone_repo(&self, destination_folder: Option<&str>) -> (call: Invocation)
        ensures
            call@ == (InvocationView {
                script: self.script_view(),
                arguments: seq![
                    CLONE_CMD@,
                    self.config_view().repository_path@,
                    working_folder(destination_folder, self.config_view()),
                    self.config_view().branch@,
                ],
                environment: Seq::empty(),
            }),
    {
        let mut arguments: Vec<String> = Vec::new();
        arguments.push(String::from_str(CLONE_CMD));
        arguments.push(self.config.repository_path.clone());
        arguments.push(self.folder(destination_folder));
        arguments.push(self.config.branch.clone());
        let call = Invocation {
            script: choose_script(&self.cli_script_path, GIT_CLI),
            arguments,
            environment: Vec::new(),
        };
        proof {
            assert(call@.arguments =~= seq![
                CLONE_CMD@,
                self.config_view().repository_path@,
                working_folder(destination_folder, self.config_view()),
                self.config_view().branch@,
            ]);
            assert(call@.environment =~= Seq::empty());
        }
        call
    }

    /// Where the clone of the repository is: `folder/repository_name`.
    pub fn cloned_path(&self, destination_folder: Option<&str>) -> (path: String)
        ensures
            path@ == working_folder(destination_folder, self.config_view()) + "/"@
                + self.config_view().repository_name@,
    {
        self.folder(destination_folder).concat("/").concat(self.config.repository_name.as_str())
    }

    /// The call that commits and pushes what changed under
    /// `repository_path`.
    pub fn auto_commit(&self, repository_path: String, commit_msg: String) -> (call: Invocation)
        ensures
            call@ == (InvocationView {
                script: self.script_view(),
                arguments: seq![AUTO_COMMIT_CMD@],
                environment: seq![
                    ("REPO_DIRECTORY"@, repository_path@),
                    ("COMMIT_MSG"@, commit_msg@),
                ],
            }),
    {
        let mut arguments: Vec<String> = Vec::new();
        arguments.push(String::from_str(AUTO_COMMIT_CMD));
        let mut environment: Vec<(String, String)> = Vec::new();
        environment.push((String::from_str("REPO_DIRECTORY"), repository_path));
        environment.push((String::from_str("COMMIT_MSG"), commit_msg));
        let call = Invocation {
            script: choose_script(&self.cli_script_path, GIT_CLI),
            arguments,
            environment,
        };
        proof {
            assert(call@.arguments =~= seq![AUTO_COMMIT_CMD@]);
            assert(call@.environment =~= seq![
                ("REPO_DIRECTORY"@, repository_path@),
                ("COMMIT_MSG"@, commit_msg@),
            ]);
        }
        call
    }

    /// The call that commits what changed under `repository_path` to the
    /// branch `pr_branch_name` and opens a pull request against the
    /// configured branch.
    pub fn pull_request(
        &self,
        repository_path: String,
        commit_msg: String,
        title: String,
        body: String,
        pr_branch_name: String,
    ) -> (call: Invocation)
        ensures
            call@ == (InvocationView {
                script: self.script_view(),
                arguments: seq![PULL_REQUEST_CMD@],
                environment: seq![
                    ("REPO_DIRECTORY"@, repository_path@),
                    ("COMMIT_MSG"@, commit_msg@),
                    ("PR_TITLE"@, title@),
                    ("PR_BODY"@, body@),
                    ("PR_BRANCH_NAME"@, pr_branch_name@),
                    ("BASE_BRANCH"@, self.config_view().branch@),
                ],
            }),
    {
        let mut arguments: Vec<String> = Vec::new();
        arguments.push(String::from_str(PULL_REQUEST_CMD));
        let mut environment: Vec<(String, String)> = Vec::new();
        environment.push((String::from_str("REPO_DIRECTORY"), repository_path));
        environment.push((String::from_str("COMMIT_MSG"), commit_msg));
        environment.push((String::from_str("PR_TITLE"), title));
        environment.push((String::from_str("PR_BODY"), body));
        environment.push((String::from_str("PR_BRANCH_NAME"), pr_branch_name));
        environment.push((String::from_str("BASE_BRANCH"), self.config.branch.clone()));
        let call = Invocation {
            script: choose_script(&self.cli_script_path, GIT_CLI),
            arguments,
            environment,
        };
        proof {
            assert(call@.arguments =~= seq![PULL_REQUEST_CMD@]);
            assert(call@.environment =~= seq![
                ("REPO_DIRECTORY"@, repository_path@),
                ("COMMIT_MSG"@, commit_msg@),
                ("PR_TITLE"@, title@),
                ("PR_BODY"@, body@),
                ("PR_BRANCH_NAME"@, pr_branch_name@),
                ("BASE_BRANCH"@, self.config_view().branch@),
            ]);
        }
        call
    }

    /// The call that removes the folder that the repository was cloned
    /// into.
    pub fn clean(&self, destination_folder: Option<&str>) -> (call: Invocation)
        ensures
            call@ == (InvocationView {
                script: self.script_view(),
                arguments: seq![
                    CLEAN_CMD@,
                    working_folder(destination_folder, self.config_view()),
                ],
                environment: Seq::empty(),
            }),
    {
        let mut arguments: Vec<String> = Vec::new();
        arguments.push(String::from_str(CLEAN_CMD));
        arguments.push(self.folder(destination_folder));
        let call = Invocation {
            script: choose_script(&self.cli_script_path, GIT_CLI),
            arguments,
            environment: Vec::new(),
        };
        proof {
            assert(call@.arguments =~= seq![
                CLEAN_CMD@,
                working_folder(destination_folder, self.config_view()),
            ]);
            assert(call@.environment =~= Seq::empty());
        }
        call
    }
}

} // verus!
