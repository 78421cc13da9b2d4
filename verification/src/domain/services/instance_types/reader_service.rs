//! The catalog as its readers see it.

use crate::domain::model::errors::ServiceError;
use crate::domain::model::instance_type::InstanceType;
use crate::domain::ports::incoming::InstanceTypesService;
use crate::domain::ports::outgoing::{copies_records, ReadStore};
use vstd::prelude::*;

verus! {

/// Serves the instance types that a store holds.
pub struct DefaultInstanceTypesService<S> {
    store: S,
}

impl<S: ReadStore<InstanceType>> DefaultInstanceTypesService<S> {
    /// The store that the service reads.
    pub closed spec fn store_view(&self) -> S {
        self.store
    }

    /// A service on `store`.
    pub fn new(store: S) -> (service: Self)
        ensures
            service.store_view() == store,
    {
        Self { store }
    }
}

impl<S: ReadStore<InstanceType>> InstanceTypesService for DefaultInstanceTypesService<S> {
    /// The instance types in the store: what the store answers when asked
    /// for all its records. Where that is a list, each of them is a copy of
    /// one of the store's records; where the store fails, so does the
    /// service, with the store's failure.
    fn list(&self) -> (listed: Result<Vec<InstanceType>, ServiceError>)
        ensures
            self.store_view().lists(listed),
            copies_records(self.store_view().records(), listed),
    {
        self.store.list()
    }
}

} // verus!
