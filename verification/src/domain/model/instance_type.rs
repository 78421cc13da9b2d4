//! Instance types and the catalog snapshot that lists them.

use crate::domain::ports::incoming::WithName;
use crate::domain::services::instance_types::deserializer;
use crate::domain::services::instance_types::updater::RawPricingList;
use vstd::prelude::*;

verus! {

/// An instance type description.
#[derive(Debug, PartialEq, Eq)]
pub struct InstanceType {
    /// Instance name, the key of the record.
    pub name: String,
    /// Instance family.
    pub family: String,
    /// Memory in bytes.
    pub memory: usize,
    /// Number of virtual CPUs.
    pub vcpu: usize,
    /// Number of GPUs.
    pub gpu: usize,
}

/// What an [`InstanceType`] says, its texts taken as characters.
pub struct InstanceTypeView {
    pub name: Seq<char>,
    pub family: Seq<char>,
    pub memory: usize,
    pub vcpu: usize,
    pub gpu: usize,
}

impl View for InstanceType {
    type V = InstanceTypeView;

    open spec fn view(&self) -> InstanceTypeView {
        InstanceTypeView {
            name: self.name@,
            family: self.family@,
            memory: self.memory,
            vcpu: self.vcpu,
            gpu: self.gpu,
        }
    }
}

impl Clone for InstanceType {
    fn clone(&self) -> (copy: Self)
        ensures
            copy == *self,
    {
        InstanceType {
            name: self.name.clone(),
            family: self.family.clone(),
            memory: self.memory,
            vcpu: self.vcpu,
            gpu: self.gpu,
        }
    }
}

impl WithName for InstanceType {
    open spec fn name_view(&self) -> Seq<char> {
        self.name@
    }

    fn name(&self) -> (name: String) {
        self.name.clone()
    }
}

/// What a sequence of records says, record by record.
pub open spec fn records_view(records: Seq<InstanceType>) -> Seq<InstanceTypeView> {
    records.map_values(|record: InstanceType| record@)
}

/// One published catalog: a version tag and the instance types it lists.
/// The tag is compared for equality only.
#[derive(Debug, PartialEq, Eq)]
pub struct InstanceTypesList {
    pub version: String,
    pub instance_types: Vec<InstanceType>,
}

impl InstanceTypesList {
    /// The catalog that a pricing list publishes: its version, and the
    /// instance types that its products describe.
    pub fn parse(list: RawPricingList) -> (catalog: Self)
        ensures
            catalog.version == list.version,
            records_view(catalog.instance_types@) == deserializer::catalog_records(
                deserializer::products_view(list.products@),
            ),
    {
        let instance_types = deserializer::deserialize_instance_types(&list.products);
        InstanceTypesList { version: list.version, instance_types }
    }
}

} // verus!
