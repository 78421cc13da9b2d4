//! Node groups, shown with the instance type that the catalog knows for
//! them, and created through the GitOps repository.

use crate::domain::model::errors::ServiceError;
use crate::domain::model::instance_type::InstanceType;
use crate::domain::model::kubernetes::{NodeGroupDto, NodegroupRequestDto};
use crate::domain::ports::incoming::{NodegroupService, TemplateService};
use crate::domain::ports::outgoing::{copies_record, ReadStore, Repository, VersionControl};
use vstd::prelude::*;

verus! {

pub const NODEGROUP_TEMPLATE: &'static str = "nodegroup";

pub const COMMIT_MESSAGE: &'static str = "Directly commited a nodegroup from Rust back-end";

pub const PULL_REQUEST_COMMIT_MESSAGE: &'static str = "First commit message from RUST";

pub const PULL_REQUEST_TITLE: &'static str = "Pr Title from Rust";

pub const PULL_REQUEST_BODY: &'static str = "Body of the PR";

pub const PULL_REQUEST_BRANCH: &'static str = "Test_branch_from_rust";

pub const DEFAULT_SIZE: &'static str = "0";

/// A node group with `instance_type` as the description of its instance
/// type, and all else as in `nodegroup`.
pub open spec fn described(nodegroup: NodeGroupDto, instance_type: InstanceType) -> NodeGroupDto {
    NodeGroupDto {
        name: nodegroup.name,
        instance_name: nodegroup.instance_name,
        min_size: nodegroup.min_size,
        max_size: nodegroup.max_size,
        ephemeral: nodegroup.ephemeral,
        state: nodegroup.state,
        instance_type: Some(instance_type),
    }
}

/// The node group as shown when the catalog answered `found` to the
/// question for its instance type: with the record where there is one, as
/// it was where there is none.
pub open spec fn shown_with(
    nodegroup: NodeGroupDto,
    found: Result<InstanceType, ServiceError>,
) -> NodeGroupDto {
    match found {
        Ok(instance_type) => described(nodegroup, instance_type),
        Err(_) => nodegroup,
    }
}

/// The node group as shown when the catalog answered `found`, see
/// [`shown_with`].
pub fn with_instance_type(nodegroup: NodeGroupDto, found: Result<InstanceType, ServiceError>) -> (shown:
    NodeGroupDto)
    ensures
        shown == shown_with(nodegroup, found),
{
    match found {
        Ok(instance_type) => NodeGroupDto {
            name: nodegroup.name,
            instance_name: nodegroup.instance_name,
            min_size: nodegroup.min_size,
            max_size: nodegroup.max_size,
            ephemeral: nodegroup.ephemeral,
            state: nodegroup.state,
            instance_type: Some(instance_type),
        },
        Err(_) => nodegroup,
    }
}

/// The text of an optional value, or `default_value` where there is none.
pub fn get_or_default<'a>(value: &'a Option<String>, default_value: &'a str) -> (text: &'a str)
    ensures
        text@ == match *value {
            Some(v) => v@,
            None => default_value@,
        },
{
    match value {
        Some(v) => v.as_str(),
        None => default_value,
    }
}

/// The pairs of a name and a value that the node group template is filled
/// with: the name, the ephemeral storage, the default instance type and the
/// three sizes (each `0` where the request gives none), in this order, and
/// last the alternate instance type where the request gives one.
pub open spec fn template_values(request: NodegroupRequestDto) -> Seq<(Seq<char>, Seq<char>)> {
    let fixed = seq![
        ("NAME"@, request.name@),
        ("EPHEMERAL_STORAGE"@, request.ephemeral@),
        ("DEFAULT_INSTANCE_TYPE"@, request.default_instance_type@),
        ("MIN_SIZE"@, size_text(request.min_size)),
        ("MAX_SIZE"@, size_text(request.max_size)),
        ("TARGET_SIZE"@, size_text(request.target_size)),
    ];
    match request.alternate_instance_type {
        Some(alternate) => fixed.push(("ALTERNATE_INSTANCE_TYPE"@, alternate@)),
        None => fixed,
    }
}

/// A size as the template takes it: the text given, or `0`.
pub open spec fn size_text(size: Option<String>) -> Seq<char> {
    match size {
        Some(text) => text@,
        None => DEFAULT_SIZE@,
    }
}

/// The characters of pairs of texts.
pub open spec fn pairs_view(pairs: Seq<(String, String)>) -> Seq<(Seq<char>, Seq<char>)> {
    crate::domain::ports::outgoing::pairs_text(pairs)
}

/// The values that the node group template is filled with, see
/// [`template_values`].
pub fn template_data(request: &NodegroupRequestDto) -> (data: Vec<(String, String)>)
    ensures
        pairs_view(data@) == template_values(*request),
{
    let mut data: Vec<(String, String)> = Vec::new();
    data.push((String::from_str("NAME"), request.name.clone()));
    data.push((String::from_str("EPHEMERAL_STORAGE"), request.ephemeral.clone()));
    data.push((String::from_str("DEFAULT_INSTANCE_TYPE"), request.default_instance_type.clone()));
    data.push(
        (String::from_str("MIN_SIZE"), String::from_str(get_or_default(&request.min_size, DEFAULT_SIZE))),
    );
    data.push(
        (String::from_str("MAX_SIZE"), String::from_str(get_or_default(&request.max_size, DEFAULT_SIZE))),
    );
    data.push(
        (
            String::from_str("TARGET_SIZE"),
            String::from_str(get_or_default(&request.target_size, DEFAULT_SIZE)),
        ),
    );
    match &request.alternate_instance_type {
        Some(alternate_instance_type) => {
            data.push((String::from_str("ALTERNATE_INSTANCE_TYPE"), alternate_instance_type.clone()));
        },
        None => {},
    }
    proof {
        assert(pairs_view(data@) =~= template_values(*request));
    }
    data
}

/// Where the rendered node group goes in a clone of the repository at
/// `gitops_path`.
pub open spec fn destination_path(gitops_path: Seq<char>, name: Seq<char>) -> Seq<char> {
    gitops_path + "/infrastructure/_catalog/templates/nodegroup-"@ + name + ".yaml"@
}

/// The file of a node group in a clone of the repository, see
/// [`destination_path`].
pub fn nodegroup_file(gitops_path: &str, name: &str) -> (path: String)
    ensures
        path@ == destination_path(gitops_path@, name@),
{
    String::from_str(gitops_path).concat("/infrastructure/_catalog/templates/nodegroup-").concat(
        name,
    ).concat(".yaml")
}

/// Serves node groups from a repository, with the catalog's description of
/// their instance types, and creates them through templates in the GitOps
/// repository.
pub struct DefaultNodegroupsService<R, S, T, V> {
    repository: R,
    store: S,
    template_service: T,
    gitops_service: V,
}

impl<
    R: Repository<NodeGroupDto>,
    S: ReadStore<InstanceType>,
    T: TemplateService,
    V: VersionControl,
> DefaultNodegroupsService<R, S, T, V> {
    /// The catalog store that instance types are looked up in.
    pub closed spec fn store_view(&self) -> S {
        self.store
    }

    /// The repository of node groups.
    pub closed spec fn repository_view(&self) -> R {
        self.repository
    }

    /// The templates that node groups are rendered with.
    pub closed spec fn template_view(&self) -> T {
        self.template_service
    }

    /// The GitOps repository that node groups are committed to.
    pub closed spec fn gitops_view(&self) -> V {
        self.gitops_service
    }

    pub fn new(repository: R, store: S, template_service: T, gitops_service: V) -> (service: Self)
        ensures
            service.store_view() == store,
            service.repository_view() == repository,
            service.template_view() == template_service,
            service.gitops_view() == gitops_service,
    {
        Self { repository, store, template_service, gitops_service }
    }

    /// Adds information from the store for the instance type, if it exists.
    ///
    /// A node group that names no instance type comes back as it is. For
    /// one that names one the store is asked for the record of that name:
    /// where it gives one, the node group comes back with that record, a copy
    /// of what the store holds; where it gives none, the node group comes
    /// back as it is. A name that the store does not know, or a store that
    /// fails, never fails the node group.
    pub fn populate_nodegroup(&self, nodegroup: NodeGroupDto) -> (shown: NodeGroupDto)
        ensures
            self.populated(nodegroup, shown),
    {
        let ghost asked = nodegroup;
        let found = match &nodegroup.instance_name {
            Some(instance_name) => self.store.get(instance_name.as_str()),
            None => {
                return nodegroup;
            },
        };
        let ghost answer = found;
        let shown = with_instance_type(nodegroup, found);
        proof {
            let instance_name = asked.instance_name->0;
            assert(self.store_view().gives(instance_name@, answer));
            assert(shown == shown_with(asked, answer));
        }
        shown
    }

    /// Whether `shown` is `nodegroup` as [`Self::populate_nodegroup`] shows
    /// it: the node group itself where it names no instance type, and else
    /// the node group with what the store answers to the question for that
    /// name.
    pub open spec fn populated(&self, nodegroup: NodeGroupDto, shown: NodeGroupDto) -> bool {
        match nodegroup.instance_name {
            None => shown == nodegroup,
            Some(instance_name) => exists|found: Result<InstanceType, ServiceError>|
                {
                    &&& #[trigger] self.store_view().gives(instance_name@, found)
                    &&& copies_record(self.store_view().records(), instance_name@, found)
                    &&& shown == shown_with(nodegroup, found)
                },
        }
    }

    /// Whether `shown` are `nodegroups` as [`Self::populate_nodegroup`]
    /// shows them, one by one and in their order.
    pub open spec fn all_populated(
        &self,
        nodegroups: Seq<NodeGroupDto>,
        shown: Seq<NodeGroupDto>,
    ) -> bool {
        &&& shown.len() == nodegroups.len()
        &&& forall|i: int| 0 <= i < shown.len() ==> self.populated(nodegroups[i], #[trigger] shown[i])
    }

    /// Shows each of `nodegroups` as [`Self::populate_nodegroup`] does, in
    /// their order.
    pub fn populate_all(&self, nodegroups: Vec<NodeGroupDto>) -> (shown: Vec<NodeGroupDto>)
        ensures
            self.all_populated(nodegroups@, shown@),
    {
        let ghost all = nodegroups@;
        let mut shown: Vec<NodeGroupDto> = Vec::new();
        for nodegroup in it: nodegroups
            invariant
                it.seq() == all,
                shown@.len() == it.index(),
                forall|i: int|
                    0 <= i < shown@.len() ==> self.populated(all[i], #[trigger] shown@[i]),
        {
            shown.push(self.populate_nodegroup(nodegroup));
        }
        shown
    }

    /// Whether `shown` is what [`NodegroupService::get`] gives for `name`:
    /// the repository is asked for the node group of that name; where it has
    /// one, that node group is shown as [`Self::populate_nodegroup`] shows
    /// it, and where it has none, nothing is.
    pub open spec fn gets(&self, name: Seq<char>, shown: Option<NodeGroupDto>) -> bool {
        exists|found: Option<NodeGroupDto>|
            {
                &&& #[trigger] self.repository_view().finds(name, found)
                &&& match found {
                    Some(nodegroup) => shown matches Some(populated) && self.populated(
                        nodegroup,
                        populated,
                    ),
                    None => shown is None,
                }
            }
    }

    /// Whether `shown` is what [`NodegroupService::list`] gives: the
    /// repository is asked for all node groups; where it gives them, each is
    /// shown as [`Self::populate_nodegroup`] shows it, in the order of the
    /// repository, and where it gives none, nothing is.
    pub open spec fn lists(&self, shown: Option<Vec<NodeGroupDto>>) -> bool {
        exists|found: Option<Vec<NodeGroupDto>>|
            {
                &&& #[trigger] self.repository_view().finds_all(found)
                &&& match found {
                    Some(nodegroups) => shown matches Some(populated) && self.all_populated(
                        nodegroups@,
                        populated@,
                    ),
                    None => shown is None,
                }
            }
    }

    /// Whether `created` is how committing the node group of `request`
    /// ends, once it is rendered in the clone at `gitops_path`: as the
    /// direct commit does where the request skips the pull request, and else
    /// as the pull request does.
    pub open spec fn committed(
        &self,
        request: NodegroupRequestDto,
        gitops_path: Seq<char>,
        created: Result<(), ServiceError>,
    ) -> bool {
        if request.skip_pull_request {
            self.gitops_view().commits(gitops_path, COMMIT_MESSAGE@, created)
        } else {
            self.gitops_view().requests(
                gitops_path,
                PULL_REQUEST_COMMIT_MESSAGE@,
                PULL_REQUEST_TITLE@,
                PULL_REQUEST_BODY@,
                PULL_REQUEST_BRANCH@,
                created,
            )
        }
    }

    /// Whether `created` is how rendering and committing the node group of
    /// `request` ends, once the repository is cloned to `gitops_path`: the
    /// template is written with the values of the request to the node
    /// group's file in the clone; a failure of that is the end, and else
    /// the commit is.
    pub open spec fn rendered(
        &self,
        request: NodegroupRequestDto,
        gitops_path: Seq<char>,
        created: Result<(), ServiceError>,
    ) -> bool {
        exists|written: Result<(), ServiceError>|
            {
                &&& #[trigger] self.template_view().writes(
                    NODEGROUP_TEMPLATE@,
                    template_values(request),
                    destination_path(gitops_path, request.name@),
                    written,
                )
                &&& match written {
                    Err(failure) => created == Err::<(), ServiceError>(failure),
                    Ok(_) => self.committed(request, gitops_path, created),
                }
            }
    }

    /// Whether `created` is what [`NodegroupService::create`] gives for
    /// `request`: the repository is cloned into its configured folder; a
    /// failure of that is the end, and else the node group is rendered into
    /// the clone and committed.
    pub open spec fn creates(
        &self,
        request: NodegroupRequestDto,
        created: Result<(), ServiceError>,
    ) -> bool {
        exists|cloned: Result<String, ServiceError>|
            {
                &&& #[trigger] self.gitops_view().clones(None, cloned)
                &&& match cloned {
                    Err(failure) => created == Err::<(), ServiceError>(failure),
                    Ok(gitops_path) => self.rendered(request, gitops_path@, created),
                }
            }
    }
}

impl<
    R: Repository<NodeGroupDto>,
    S: ReadStore<InstanceType>,
    T: TemplateService,
    V: VersionControl,
> NodegroupService<NodeGroupDto> for DefaultNodegroupsService<R, S, T, V> {
    /// The node group named `name`, with the catalog's description of its
    /// instance type, if the repository has it.
    fn get(&self, name: &str) -> (shown: Option<NodeGroupDto>)
        ensures
            self.gets(name@, shown),
    {
        let found = self.repository.find_by(name);
        let ghost answer = found;
        let shown = match found {
            Some(nodegroup) => Some(self.populate_nodegroup(nodegroup)),
            None => None,
        };
        proof {
            assert(self.repository_view().finds(name@, answer));
        }
        shown
    }

    /// The node groups of the repository, each with the catalog's
    /// description of its instance type.
    fn list(&self) -> (shown: Option<Vec<NodeGroupDto>>)
        ensures
            self.lists(shown),
    {
        let found = self.repository.find_all();
        let ghost answer = found;
        let shown = match found {
            Some(nodegroups) => Some(self.populate_all(nodegroups)),
            None => None,
        };
        proof {
            assert(self.repository_view().finds_all(answer));
        }
        shown
    }

    /// Renders the node group into a clone of the GitOps repository and
    /// commits it, directly or as a pull request. The first step that fails
    /// ends the creation with its failure.
    fn create(&self, request: &NodegroupRequestDto) -> (created: Result<(), ServiceError>)
        ensures
            self.creates(*request, created),
    {
        let data = template_data(request);
        let cloned = self.gitops_service.clone_repo(None);
        proof {
            assert(self.gitops_view().clones(None, cloned));
        }
        let gitops_path = match cloned {
            Ok(path) => path,
            Err(failure) => {
                return Err(failure);
            },
        };
        let destination = nodegroup_file(gitops_path.as_str(), request.name.as_str());
        let written = self.template_service.write_to_file(
            NODEGROUP_TEMPLATE,
            &data,
            destination.as_str(),
        );
        proof {
            assert(self.template_view().writes(
                NODEGROUP_TEMPLATE@,
                template_values(*request),
                destination_path(gitops_path@, request.name@),
                written,
            ));
        }
        match written {
            Ok(_) => {},
            Err(failure) => {
                proof {
                    assert(self.rendered(
                        *request,
                        gitops_path@,
                        Err::<(), ServiceError>(failure),
                    ));
                }
                return Err(failure);
            },
        }
        let ghost path = gitops_path@;
        let created = if request.skip_pull_request {
            self.gitops_service.auto_commit(gitops_path, String::from_str(COMMIT_MESSAGE))
        } else {
            self.gitops_service.pull_request(
                gitops_path,
                String::from_str(PULL_REQUEST_COMMIT_MESSAGE),
                String::from_str(PULL_REQUEST_TITLE),
                String::from_str(PULL_REQUEST_BODY),
                String::from_str(PULL_REQUEST_BRANCH),
            )
        };
        proof {
            assert(self.committed(*request, path, created));
            assert(self.rendered(*request, path, created));
        }
        created
    }
}

} // verus!
