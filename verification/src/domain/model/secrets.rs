//! Secrets as the API shows and accepts them.

use vstd::prelude::*;

verus! {

/// A secret known to the cluster.
#[derive(Clone, Debug, PartialEq, Eq)]
pub struct SecretDto {
    pub name: String,
    pub namespace: String,
    pub version: String,
}

/// A request to create a sealed secret from literal key and value pairs.
#[derive(Clone, Debug, PartialEq, Eq)]
pub struct SecretRequestDto {
    pub name: String,
    pub literals: Vec<(String, String)>,
    pub skip_pull_request: bool,
}

} // verus!
