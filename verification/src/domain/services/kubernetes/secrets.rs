//! Secrets, read from a repository and created sealed through the GitOps
//! repository.

use crate::domain::model::errors::ServiceError;
use crate::domain::model::secrets::{SecretDto, SecretRequestDto};
use crate::domain::ports::incoming::SecretService;
use crate::domain::ports::outgoing::{Repository, SealedSecretClient, VersionControl};
use vstd::prelude::*;

verus! {

/// Where the sealed secret goes in a clone of the repository at
/// `gitops_path`.
pub open spec fn destination_path(gitops_path: Seq<char>, name: Seq<char>) -> Seq<char> {
    gitops_path + "/infrastructure/_catalog/templates/sealed-secret-"@ + name + ".yaml"@
}

/// The file of a sealed secret in a clone of the repository, see
/// [`destination_path`].
pub fn sealed_secret_file(gitops_path: &str, name: &str) -> (path: String)
    ensures
        path@ == destination_path(gitops_path@, name@),
{
    String::from_str(gitops_path).concat(
        "/infrastructure/_catalog/templates/sealed-secret-",
    ).concat(name).concat(".yaml")
}

/// The title of the pull request that adds the secret `name`.
pub fn pull_request_title(name: &str) -> (title: String)
    ensures
        title@ == "Added secret "@ + name@ + " from Rust back-end"@,
{
    String::from_str("Added secret ").concat(name).concat(" from Rust back-end")
}

/// The branch of the pull request that adds the secret `name`.
pub fn pull_request_branch(name: &str) -> (branch: String)
    ensures
        branch@ == "add-secret-"@ + name@,
{
    String::from_str("add-secret-").concat(name)
}

pub const COMMIT_MESSAGE: &'static str = "Directly commited a secret from Rust back-end";

pub const PULL_REQUEST_COMMIT_MESSAGE: &'static str = "Added a new secret from Rust back-end";

pub const PULL_REQUEST_BODY: &'static str = "Body of the PR";

/// Serves secrets from a repository and creates them sealed.
pub struct DefaultSecretsService<R, S, V> {
    repository: R,
    sealed_secret_client: S,
    gitops_service: V,
}

impl<R: Repository<SecretDto>, S: SealedSecretClient, V: VersionControl> DefaultSecretsService<
    R,
    S,
    V,
> {
    /// The repository of secrets.
    pub closed spec fn repository_view(&self) -> R {
        self.repository
    }

    /// The tool that seals the secrets.
    pub closed spec fn client_view(&self) -> S {
        self.sealed_secret_client
    }

    /// The GitOps repository that sealed secrets are committed to.
    pub closed spec fn gitops_view(&self) -> V {
        self.gitops_service
    }

    pub fn new(repository: R, sealed_secret_client: S, gitops_service: V) -> (service: Self)
        ensures
            service.repository_view() == repository,
            service.client_view() == sealed_secret_client,
            service.gitops_view() == gitops_service,
    {
        Self { repository, sealed_secret_client, gitops_service }
    }

    /// Whether `created` is how committing the secret of `request` ends,
    /// once it is sealed in the clone at `gitops_path`: as the direct commit
    /// does where the request skips the pull request, and else as the pull
    /// request does, whose title and branch name the secret.
    pub open spec fn committed(
        &self,
        request: SecretRequestDto,
        gitops_path: Seq<char>,
        created: Result<(), ServiceError>,
    ) -> bool {
        if request.skip_pull_request {
            self.gitops_view().commits(gitops_path, COMMIT_MESSAGE@, created)
        } else {
            self.gitops_view().requests(
                gitops_path,
                PULL_REQUEST_COMMIT_MESSAGE@,
                "Added secret "@ + request.name@ + " from Rust back-end"@,
                PULL_REQUEST_BODY@,
                "add-secret-"@ + request.name@,
                created,
            )
        }
    }

    /// Whether `created` is how sealing and committing the secret of
    /// `request` ends, once the repository is cloned to `gitops_path`: the
    /// sealed secret is saved to the secret's file in the clone; a failure
    /// of that is the end, and else the commit is.
    pub open spec fn sealed(
        &self,
        request: SecretRequestDto,
        gitops_path: Seq<char>,
        created: Result<(), ServiceError>,
    ) -> bool {
        exists|saved: Result<(), ServiceError>|
            {
                &&& #[trigger] self.client_view().saves(
                    request,
                    Some(destination_path(gitops_path, request.name@)),
                    saved,
                )
                &&& match saved {
                    Err(failure) => created == Err::<(), ServiceError>(failure),
                    Ok(_) => self.committed(request, gitops_path, created),
                }
            }
    }

    /// Whether `created` is what [`SecretService::create`] gives for
    /// `request`: the repository is cloned into its configured folder; a
    /// failure of that is the end, and else the secret is sealed into the
    /// clone and committed.
    pub open spec fn creates(&self, request: SecretRequestDto, created: Result<(), ServiceError>) -> bool {
        exists|cloned: Result<String, ServiceError>|
            {
                &&& #[trigger] self.gitops_view().clones(None, cloned)
                &&& match cloned {
                    Err(failure) => created == Err::<(), ServiceError>(failure),
                    Ok(gitops_path) => self.sealed(request, gitops_path@, created),
                }
            }
    }
}

impl<R: Repository<SecretDto>, S: SealedSecretClient, V: VersionControl> SecretService for DefaultSecretsService<
    R,
    S,
    V,
> {
    /// The secret named `name`, as the repository answers for it.
    fn get(&self, name: &str) -> (found: Option<SecretDto>)
        ensures
            self.repository_view().finds(name@, found),
    {
        self.repository.find_by(name)
    }

    /// The secrets of the repository, as the repository answers for them.
    fn list(&self) -> (found: Option<Vec<SecretDto>>)
        ensures
            self.repository_view().finds_all(found),
    {
        self.repository.find_all()
    }

    /// Seals the secret into a clone of the GitOps repository and commits
    /// it, directly or as a pull request. The first step that fails ends the
    /// creation with its failure.
    fn create(&self, request: &SecretRequestDto) -> (created: Result<(), ServiceError>)
        ensures
            self.creates(*request, created),
    {
        let cloned = self.gitops_service.clone_repo(None);
        proof {
            assert(self.gitops_view().clones(None, cloned));
        }
        let gitops_path = match cloned {
            Ok(path) => path,
            Err(failure) => {
                return Err(failure);
            },
        };
        let destination = sealed_secret_file(gitops_path.as_str(), request.name.as_str());
        let saved = self.sealed_secret_client.save(request, Some(destination));
        proof {
            assert(self.client_view().saves(
                *request,
                Some(destination_path(gitops_path@, request.name@)),
                saved,
            ));
        }
        match saved {
            Ok(_) => {},
            Err(failure) => {
                proof {
                    assert(self.sealed(*request, gitops_path@, Err::<(), ServiceError>(failure)));
                }
                return Err(failure);
            },
        }
        let ghost path = gitops_path@;
        let created = if request.skip_pull_request {
            self.gitops_service.auto_commit(gitops_path, String::from_str(COMMIT_MESSAGE))
        } else {
            self.gitops_service.pull_request(
                gitops_path,
                String::from_str(PULL_REQUEST_COMMIT_MESSAGE),
                pull_request_title(request.name.as_str()),
                String::from_str(PULL_REQUEST_BODY),
                pull_request_branch(request.name.as_str()),
            )
        };
        proof {
            assert(self.committed(*request, path, created));
            assert(self.sealed(*request, path, created));
        }
        created
    }

    /// The sealed secret of `request`, as the tool renders it.
    fn render(&self, request: &SecretRequestDto) -> (rendered: Result<String, ServiceError>)
        ensures
            self.client_view().seals(*request, rendered),
    {
        self.sealed_secret_client.render(request)
    }
}

} // verus!
