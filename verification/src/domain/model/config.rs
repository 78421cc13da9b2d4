//! Where the GitOps repository lives.

use vstd::prelude::*;

verus! {

/// The repository that catalog changes are committed to.
#[derive(Clone, Debug, PartialEq, Eq)]
pub struct GitOpsConfig {
    pub repository_name: String,
    pub organization: String,
    pub branch: String,
    pub destination_folder: String,
    /// `organization/repository_name`.
    pub repository_path: String,
}

} // verus!
