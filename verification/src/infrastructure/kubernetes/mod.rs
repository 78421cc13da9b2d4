//! The cluster's tools and resources.

pub mod model;
pub mod sealed_secret_client;
pub mod transformations;

pub use model::node_group_spec::NodeGroupSpec;
pub use sealed_secret_client::KubesealClient;
