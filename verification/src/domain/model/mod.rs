//! Plain data passed between the services and their callers.

pub mod config;
pub mod errors;
pub mod instance_type;
pub mod kubernetes;
pub mod secrets;

pub use config::GitOpsConfig;
pub use errors::ServiceError;
pub use instance_type::{InstanceType, InstanceTypesList};
pub use kubernetes::{NodeGroupDto, NodegroupRequestDto, ResponseStatusDto};
pub use secrets::{SecretDto, SecretRequestDto};
