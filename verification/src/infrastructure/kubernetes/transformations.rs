//! From the resources of the cluster to what the API shows.

use crate::domain::model::kubernetes::NodeGroupDto;
use crate::domain::model::secrets::SecretDto;
use crate::infrastructure::kubernetes::model::node_group_spec::{
    NodeGroupSpec,
    NodeGroupState,
    NodeGroupStatus,
};
use vstd::prelude::*;

verus! {

/// The version shown of every secret.
pub const SECRET_VERSION: &'static str = "1";

/// What is shown of the secret `name` of `namespace`.
pub fn secret_dto(name: String, namespace: String) -> (shown: SecretDto)
    ensures
        shown.name == name,
        shown.namespace == namespace,
        shown.version@ == SECRET_VERSION@,
{
    SecretDto { name, namespace, version: String::from_str(SECRET_VERSION) }
}

/// The state of a node group as it is shown, where its status reports one.
pub open spec fn shown_state(status: Option<NodeGroupStatus>) -> Option<Seq<char>> {
    match status {
        Some(NodeGroupStatus { state: Some(state) }) => Some(state.shown()),
        _ => None,
    }
}

/// The default instance type of a node group: the group's instance name.
pub open spec fn instance_name(spec: NodeGroupSpec) -> Option<String> {
    match spec.instance_types {
        Some(instance_types) => Some(instance_types.default),
        None => None,
    }
}

/// The ephemeral storage of a node group.
pub open spec fn ephemeral_storage(spec: NodeGroupSpec) -> Option<String> {
    match spec.storage {
        Some(storage) => storage.ephemeral,
        None => None,
    }
}

/// The smallest size of a node group.
pub open spec fn min_size(spec: NodeGroupSpec) -> Option<usize> {
    match spec.size {
        Some(size) => size.min,
        None => None,
    }
}

/// The largest size of a node group.
pub open spec fn max_size(spec: NodeGroupSpec) -> Option<usize> {
    match spec.size {
        Some(size) => size.max,
        None => None,
    }
}

/// What is shown of the node group `name` with the given spec and status:
/// its default instance type as its instance name, its ephemeral storage,
/// its smallest and largest size and its state, each where the resource
/// has it. The description of the instance type is left for the catalog to
/// fill in.
pub fn node_group_dto(name: String, spec: NodeGroupSpec, status: Option<NodeGroupStatus>) -> (shown:
    NodeGroupDto)
    ensures
        shown.name == name,
        shown.instance_name == instance_name(spec),
        shown.ephemeral == ephemeral_storage(spec),
        shown.min_size == min_size(spec),
        shown.max_size == max_size(spec),
        crate::utils::parsers::pattern::text_view(shown.state) == shown_state(status),
        shown.instance_type is None,
{
    let (min_size, max_size) = match &spec.size {
        Some(size) => (size.min, size.max),
        None => (None, None),
    };
    let instance_name = match spec.instance_types {
        Some(instance_types) => Some(instance_types.default),
        None => None,
    };
    let ephemeral = match spec.storage {
        Some(storage) => storage.ephemeral,
        None => None,
    };
    let state = match status {
        Some(status) => match status.state {
            Some(state) => Some(state.to_text()),
            None => None,
        },
        None => None,
    };
    NodeGroupDto { name, instance_name, min_size, max_size, ephemeral, state, instance_type: None }
}

} // verus!
