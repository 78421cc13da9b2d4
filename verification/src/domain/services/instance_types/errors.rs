//! Why a refresh cycle failed.

use crate::domain::model::errors::ServiceError;
use vstd::prelude::*;

verus! {

/// The stage at which a refresh cycle failed, with what the stage reported.
#[derive(Clone, Debug, PartialEq, Eq)]
pub enum UpdaterError {
    /// The pricing source could not be read.
    ReadDataSource(ServiceError),
    /// What was read is no pricing list: it is no mapping, or it has no
    /// version or no products.
    InvalidDocument(ServiceError),
    /// The store refused the new records.
    UpdateStore(ServiceError),
}

} // verus!
