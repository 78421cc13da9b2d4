//! The GitOps repository.

pub mod git;
