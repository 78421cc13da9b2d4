//! The resources of the cluster as the services read them.

pub mod node_group_spec;

pub use node_group_spec::{
    NodeGroupInstanceTypes,
    NodeGroupSize,
    NodeGroupSpec,
    NodeGroupState,
    NodeGroupStatus,
    NodeGroupStorage,
};
