//! Node groups as the API shows and accepts them.

use crate::domain::model::instance_type::InstanceType;
use vstd::prelude::*;

verus! {

/// The outcome of a request, as reported to the caller.
#[derive(Clone, Debug, PartialEq, Eq)]
pub struct ResponseStatusDto {
    pub status: String,
}

/// A node group, with the full description of its instance type where the
/// catalog knows it.
#[derive(Clone, Debug, PartialEq, Eq)]
pub struct NodeGroupDto {
    pub name: String,
    pub instance_name: Option<String>,
    pub min_size: Option<usize>,
    pub max_size: Option<usize>,
    pub ephemeral: Option<String>,
    pub state: Option<String>,
    pub instance_type: Option<InstanceType>,
}

/// A request to create a node group.
#[derive(Clone, Debug, PartialEq, Eq)]
pub struct NodegroupRequestDto {
    pub name: String,
    pub default_instance_type: String,
    pub alternate_instance_type: Option<String>,
    pub min_size: Option<String>,
    pub max_size: Option<String>,
    pub target_size: Option<String>,
    pub ephemeral: String,
    pub skip_pull_request: bool,
}

} // verus!
