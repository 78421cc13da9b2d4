//! One refresh cycle: from what was read to the store.
//!
//! A cycle takes what reading the pricing source gave. A list whose version
//! is the one applied last is skipped; any other list replaces what the
//! store holds, and its version is remembered once the store has taken it.

use crate::domain::model::errors::ServiceError;
use crate::domain::model::instance_type::{
    records_view,
    InstanceType,
    InstanceTypeView,
    InstanceTypesList,
};
use crate::domain::ports::incoming::InstanceTypesUpdater;
use crate::domain::ports::outgoing::{keyed_by_name, WriteStore};
use crate::domain::services::instance_types::deserializer;
use crate::domain::services::instance_types::deserializer::RawProduct;
use crate::domain::services::instance_types::errors::UpdaterError;
use crate::utils::parsers::pattern::text_view;
use vstd::prelude::*;

verus! {

/// A pricing list as it was read, before any check of its products.
#[derive(Clone, Debug, PartialEq, Eq)]
pub struct RawPricingList {
    /// The version tag that the publisher gave the list.
    pub version: String,
    /// The products, in the order of the document.
    pub products: Vec<RawProduct>,
}

/// What one attempt to read the pricing source gave.
#[derive(Clone, Debug, PartialEq, Eq)]
pub enum SourceReading {
    /// The source could not be opened or read.
    Unreadable(ServiceError),
    /// The source was read, but what it holds is no pricing list.
    Malformed(ServiceError),
    /// The source holds this pricing list.
    Document(RawPricingList),
}

/// The version gate: whether a list of version `version` is to be applied
/// when `last_version` was applied last. It is unless the two are equal.
pub open spec fn version_changed(last_version: Option<Seq<char>>, version: Seq<char>) -> bool {
    match last_version {
        None => true,
        Some(last) => last != version,
    }
}

/// The version remembered after a cycle that read a list of version
/// `version`: that version where the list was to be applied and the store
/// took it, else the one remembered before.
pub open spec fn version_after(
    last_version: Option<Seq<char>>,
    version: Seq<char>,
    written: bool,
) -> Option<Seq<char>> {
    if version_changed(last_version, version) && written {
        Some(version)
    } else {
        last_version
    }
}

/// How many records a cycle reports: those of the list where it was
/// applied, none where it was skipped.
pub open spec fn applied_count(
    last_version: Option<Seq<char>>,
    version: Seq<char>,
    records: nat,
) -> nat {
    if version_changed(last_version, version) {
        records
    } else {
        0
    }
}

/// Version gate idempotence: once a list has been applied, reading a list
/// of the same version again is skipped. It reports no record and leaves
/// the remembered version as it is, whatever the list holds.
pub proof fn lemma_same_version_is_skipped(
    last_version: Option<Seq<char>>,
    version: Seq<char>,
    records: nat,
    written: bool,
)
    ensures
        ({
            let remembered = version_after(last_version, version, true);
            &&& !version_changed(remembered, version)
            &&& applied_count(remembered, version, records) == 0
            &&& version_after(remembered, version, written) == remembered
        }),
{
}

/// A write that failed is tried again: the version is not remembered, so
/// a list of that version is applied at the next cycle too.
pub proof fn lemma_failed_write_is_retried(last_version: Option<Seq<char>>, version: Seq<char>)
    ensures
        version_after(last_version, version, false) == last_version,
        version_changed(last_version, version) ==> version_changed(
            version_after(last_version, version, false),
            version,
        ),
{
}

/// Whether a store holds exactly the records that `records` describe, each
/// under its name.
pub open spec fn holds_catalog<S: WriteStore<InstanceType>>(
    store: S,
    records: Seq<InstanceTypeView>,
) -> bool {
    exists|items: Seq<InstanceType>|
        #![trigger keyed_by_name(items)]
        records_view(items) == records && store.stored() == keyed_by_name(items)
}

/// The updater of the catalog: the store it writes to, and the version of
/// the list that it applied last.
pub struct DefaultInstanceTypesUpdater<S> {
    pub last_version: Option<String>,
    store: S,
}

impl<S: WriteStore<InstanceType>> DefaultInstanceTypesUpdater<S> {
    /// The store that the updater writes to.
    pub closed spec fn store_view(&self) -> S {
        self.store
    }

    /// The version of the list applied last, if any was: the characters of
    /// the field `last_version`.
    pub closed spec fn remembered(&self) -> Option<Seq<char>> {
        text_view(self.last_version)
    }

    /// An updater for `store` that has applied no list yet.
    pub fn new(store: S) -> (updater: Self)
        ensures
            updater.remembered() is None,
            updater.store_view() == store,
    {
        Self { last_version: None, store }
    }

    /// The store that the updater writes to.
    pub fn store(&self) -> (store: &S)
        ensures
            *store == self.store_view(),
    {
        &self.store
    }

    /// The version of the list applied last, if any was.
    pub fn last_version(&self) -> (version: &Option<String>)
        ensures
            text_view(*version) == self.remembered(),
    {
        &self.last_version
    }

    /// Whether a cycle on a list that is to be applied may leave the updater
    /// as `after` and report `applied`: the instance types of the list are
    /// handed to the store whole, in one write; where the store takes them,
    /// their number is reported and the list's version remembered, and where
    /// it does not, its failure is reported and the remembered version
    /// stays.
    pub open spec fn applies(
        &self,
        list: RawPricingList,
        after: Self,
        applied: Result<usize, UpdaterError>,
    ) -> bool {
        exists|items: Seq<InstanceType>, written: Result<(), ServiceError>|
            {
                &&& #[trigger] self.store_view().writes(items, after.store_view(), written)
                &&& records_view(items) == deserializer::catalog_records(
                    deserializer::products_view(list.products@),
                )
                &&& written is Ok ==> after.store_view().stored() == keyed_by_name(items)
                &&& match written {
                    Ok(_) => {
                        &&& applied matches Ok(count) && count == items.len()
                        &&& after.remembered() == Some(list.version@)
                    },
                    Err(failure) => {
                        &&& applied == Err::<usize, UpdaterError>(UpdaterError::UpdateStore(failure))
                        &&& after.remembered() == self.remembered()
                    },
                }
            }
    }

    /// Whether a cycle on `reading` may leave the updater as `after` and
    /// report `applied`. A source that could not be read, or that holds no
    /// pricing list, fails the cycle and changes nothing. A list of the
    /// version applied last is skipped: nothing changes and 0 is reported.
    /// Any other list is applied, see [`Self::applies`].
    pub open spec fn refreshes(
        &self,
        reading: SourceReading,
        after: Self,
        applied: Result<usize, UpdaterError>,
    ) -> bool {
        match reading {
            SourceReading::Unreadable(failure) => {
                &&& applied == Err::<usize, UpdaterError>(UpdaterError::ReadDataSource(failure))
                &&& after == *self
            },
            SourceReading::Malformed(failure) => {
                &&& applied == Err::<usize, UpdaterError>(UpdaterError::InvalidDocument(failure))
                &&& after == *self
            },
            SourceReading::Document(list) => if version_changed(self.remembered(), list.version@) {
                self.applies(list, after, applied)
            } else {
                applied == Ok::<usize, UpdaterError>(0) && after == *self
            },
        }
    }

    /// Whether a list of version `version` is to be applied, see
    /// [`version_changed`].
    pub fn has_changed(&self, version: &String) -> (changed: bool)
        ensures
            changed == version_changed(self.remembered(), version@),
    {
        match &self.last_version {
            None => true,
            Some(last_version) => !(*last_version == *version),
        }
    }

    /// Concludes a cycle from what the store answered to the write of
    /// `count` records of version `version`: the version is remembered and
    /// the count reported where the store took them; where it did not, its
    /// failure is reported and the remembered version stays.
    pub fn commit(&mut self, version: String, count: usize, written: Result<(), ServiceError>) -> (applied:
        Result<usize, UpdaterError>)
        ensures
            final(self).store_view() == old(self).store_view(),
            match written {
                Ok(_) => applied == Ok::<usize, UpdaterError>(count) && final(self).remembered()
                    == Some(version@),
                Err(failure) => applied == Err::<usize, UpdaterError>(
                    UpdaterError::UpdateStore(failure),
                ) && *final(self) == *old(self),
            },
    {
        match written {
            Ok(_) => {
                self.last_version = Some(version);
                Ok(count)
            },
            Err(failure) => Err(UpdaterError::UpdateStore(failure)),
        }
    }
}

impl<S: WriteStore<InstanceType>> InstanceTypesUpdater for DefaultInstanceTypesUpdater<S> {
    /// How a cycle of this updater may end, see [`Self::refreshes`].
    open spec fn executes(
        &self,
        reading: SourceReading,
        after: Self,
        applied: Result<usize, UpdaterError>,
    ) -> bool {
        self.refreshes(reading, after, applied)
    }

    /// One refresh cycle.
    ///
    /// A source that could not be read, or that holds no pricing list, fails
    /// the cycle and changes nothing. A list of the version applied last is
    /// skipped: nothing changes and 0 is reported. Any other list is turned
    /// into its instance types and handed to the store whole; the cycle
    /// reports their number and remembers the version if the store took
    /// them, and fails with the store's failure if it did not.
    fn execute(&mut self, reading: SourceReading) -> (applied: Result<usize, UpdaterError>)
        ensures
            old(self).refreshes(reading, *final(self), applied),
            reading matches SourceReading::Document(list) ==> {
                let records = deserializer::catalog_records(
                    deserializer::products_view(list.products@),
                );
                let last_version = old(self).remembered();
                &&& final(self).remembered() == version_after(
                    last_version,
                    list.version@,
                    applied is Ok,
                )
                &&& applied matches Ok(count) ==> count == applied_count(
                    last_version,
                    list.version@,
                    records.len(),
                )
                &&& version_changed(last_version, list.version@) && applied is Ok
                    ==> holds_catalog(final(self).store_view(), records)
            },
    {
        let ghost before = *self;
        match reading {
            SourceReading::Unreadable(failure) => Err(UpdaterError::ReadDataSource(failure)),
            SourceReading::Malformed(failure) => Err(UpdaterError::InvalidDocument(failure)),
            SourceReading::Document(list) => {
                let ghost read = list;
                let pricing_list = InstanceTypesList::parse(list);
                let load_count = pricing_list.instance_types.len();
                if self.has_changed(&pricing_list.version) {
                    let ghost items = pricing_list.instance_types@;
                    let written = self.store.update(pricing_list.instance_types);
                    let applied = self.commit(pricing_list.version, load_count, written);
                    proof {
                        assert(before.store_view().writes(items, self.store_view(), written));
                        if written is Ok {
                            assert(self.store_view().stored() == keyed_by_name(items));
                        }
                        assert(before.applies(read, *self, applied));
                    }
                    applied
                } else {
                    Ok(0)
                }
            },
        }
    }
}

} // verus!
