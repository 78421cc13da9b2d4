//! Node groups and secrets of the cluster.

pub mod nodegroups;
pub mod secrets;
