//! The store of the catalog, the sources of the pricing list and the
//! clients of the outside tools.

pub mod batch;
pub mod command;
pub mod datasources;
pub mod kubernetes;
pub mod memory_store;
pub mod version_control;

pub use memory_store::InMemoryStore;
pub use version_control::git::GitVersionControl;
