//! The catalog store held in memory.
//!
//! The store keeps each record under a key and changes by batches only, as
//! a persistent bucket does. A store on disk applies the same batches; what
//! is stated here of a batch holds of it as far as its bucket keeps the
//! records it is given.

use crate::domain::model::errors::ServiceError;
use crate::domain::model::instance_type::InstanceType;
use crate::domain::model::kubernetes::NodeGroupDto;
use crate::domain::ports::incoming::TemplateService;
use crate::domain::ports::outgoing::{Repository, VersionControl};
use crate::domain::services::instance_types::deserializer;
use crate::domain::services::instance_types::errors::UpdaterError;
use crate::domain::services::instance_types::updater;
use crate::domain::services::instance_types::updater::{
    DefaultInstanceTypesUpdater,
    RawPricingList,
    SourceReading,
};
use crate::domain::services::kubernetes::nodegroups;
use crate::domain::services::kubernetes::nodegroups::DefaultNodegroupsService;
use crate::domain::ports::incoming::WithName;
use crate::domain::ports::outgoing::{holds_copy, keyed_by_name, ReadStore, WriteStore};
use crate::infrastructure::batch;
use crate::infrastructure::batch::{Batch, BatchOperation, BatchOperationView};
use vstd::prelude::*;

verus! {

/// The beginning of the message of the failure to find a key.
pub const KEY_NOT_FOUND: &'static str = "Key not found: ";

/// Whether `found` is what a store that holds `records` gives for `name`:
/// a copy of the record under that name where it holds one, and where it
/// holds none, the failure that names the key.
pub open spec fn found_in<T: Clone>(
    records: Map<Seq<char>, T>,
    name: Seq<char>,
    found: Result<T, ServiceError>,
) -> bool {
    match found {
        Ok(record) => records.contains_key(name) && vstd::pervasive::cloned::<T>(
            records[name],
            record,
        ),
        Err(failure) => !records.contains_key(name) && failure.message@ == KEY_NOT_FOUND@ + name,
    }
}

/// Whether `listed` are the records of a store that holds `records`: a copy
/// of each of them, each once, and nothing else.
pub open spec fn all_of<T: Clone>(records: Map<Seq<char>, T>, listed: Seq<T>) -> bool {
    &&& records.dom().finite()
    &&& listed.len() == records.dom().len()
    &&& forall|i: int| 0 <= i < listed.len() ==> holds_copy(records, #[trigger] listed[i])
    &&& forall|key: Seq<char>|
        records.contains_key(key) ==> exists|i: int|
            0 <= i < listed.len() && vstd::pervasive::cloned::<T>(records[key], #[trigger] listed[i])
}

/// The records of a list of entries, each under its key.
pub open spec fn entries_map<T>(entries: Seq<(String, T)>) -> Map<Seq<char>, T>
    decreases entries.len(),
{
    if entries.len() == 0 {
        Map::empty()
    } else {
        entries_map(entries.drop_last()).insert(entries.last().0@, entries.last().1)
    }
}

/// No two entries have one key.
pub open spec fn distinct_keys<T>(entries: Seq<(String, T)>) -> bool {
    forall|i: int, j: int|
        0 <= i < j < entries.len() ==> (#[trigger] entries[i]).0@ != (#[trigger] entries[j]).0@
}

/// Whether one of the entries has the key `key`.
pub open spec fn has_key<T>(entries: Seq<(String, T)>, key: Seq<char>) -> bool {
    exists|i: int| 0 <= i < entries.len() && (#[trigger] entries[i]).0@ == key
}

/// The keys of the map are the keys of the entries.
pub proof fn lemma_entries_keys<T>(entries: Seq<(String, T)>, key: Seq<char>)
    ensures
        entries_map(entries).contains_key(key) <==> has_key(entries, key),
    decreases entries.len(),
{
    if entries.len() > 0 {
        let shorter = entries.drop_last();
        lemma_entries_keys(shorter, key);
        if has_key(entries, key) {
            let i = choose|i: int| 0 <= i < entries.len() && (#[trigger] entries[i]).0@ == key;
            if i < shorter.len() {
                assert(shorter[i] == entries[i]);
            }
        }
        if has_key(shorter, key) {
            let i = choose|i: int| 0 <= i < shorter.len() && (#[trigger] shorter[i]).0@ == key;
            assert(entries[i] == shorter[i]);
        }
        if entries.last().0@ == key {
            assert(entries[entries.len() - 1].0@ == key);
        }
    }
}

/// Where the keys are distinct, each entry is found under its key.
pub proof fn lemma_entry_found<T>(entries: Seq<(String, T)>, i: int)
    requires
        distinct_keys(entries),
        0 <= i < entries.len(),
    ensures
        entries_map(entries).contains_key(entries[i].0@),
        entries_map(entries)[entries[i].0@] == entries[i].1,
    decreases entries.len(),
{
    let shorter = entries.drop_last();
    if i < entries.len() - 1 {
        lemma_distinct_prefix(entries);
        lemma_entry_found(shorter, i);
        assert(shorter[i] == entries[i]);
        assert(entries[i].0@ != entries[entries.len() - 1].0@);
    }
}

/// Dropping the last entry keeps the keys distinct.
pub proof fn lemma_distinct_prefix<T>(entries: Seq<(String, T)>)
    requires
        distinct_keys(entries),
        entries.len() > 0,
    ensures
        distinct_keys(entries.drop_last()),
{
    let shorter = entries.drop_last();
    assert forall|a: int, b: int| 0 <= a < b < shorter.len() implies (#[trigger] shorter[a]).0@ != (
    #[trigger] shorter[b]).0@ by {
        assert(shorter[a] == entries[a] && shorter[b] == entries[b]);
    }
}

/// Distinct keys make as many records as there are entries.
pub proof fn lemma_entries_count<T>(entries: Seq<(String, T)>)
    requires
        distinct_keys(entries),
    ensures
        entries_map(entries).dom().finite(),
        entries_map(entries).dom().len() == entries.len(),
    decreases entries.len(),
{
    if entries.len() > 0 {
        let shorter = entries.drop_last();
        lemma_distinct_prefix(entries);
        lemma_entries_count(shorter);
        lemma_entries_keys(shorter, entries.last().0@);
        if has_key(shorter, entries.last().0@) {
            let i = choose|i: int|
                0 <= i < shorter.len() && (#[trigger] shorter[i]).0@ == entries.last().0@;
            assert(entries[i] == shorter[i]);
            assert(entries[i].0@ != entries[entries.len() - 1].0@);
        }
        assert(entries_map(entries).dom() =~= entries_map(shorter).dom().insert(
            entries.last().0@,
        ));
    }
}

/// A store of named records in memory.
pub struct InMemoryStore<T> {
    entries: Vec<(String, T)>,
}

impl<T> View for InMemoryStore<T> {
    type V = Map<Seq<char>, T>;

    /// The records in the store, by key.
    closed spec fn view(&self) -> Map<Seq<char>, T> {
        entries_map(self.entries@)
    }
}

impl<T> InMemoryStore<T> {
    #[verifier::type_invariant]
    spec fn well_formed(self) -> bool {
        distinct_keys(self.entries@)
    }

    /// An empty store.
    pub fn new() -> (store: Self)
        ensures
            store@ == Map::<Seq<char>, T>::empty(),
    {
        InMemoryStore { entries: Vec::new() }
    }

    /// How many records the store holds.
    pub fn len(&self) -> (count: usize)
        ensures
            self@.dom().finite(),
            count == self@.dom().len(),
    {
        proof {
            use_type_invariant(self);
            lemma_entries_count(self.entries@);
        }
        self.entries.len()
    }

    /// Where the entry with the key `key` stands, if there is one.
    fn position(&self, key: &String) -> (found: Option<usize>)
        ensures
            found matches Some(i) ==> i < self.entries@.len() && self.entries@[i as int].0@ == key@,
            found is None ==> !self@.contains_key(key@),
            found is Some <==> self@.contains_key(key@),
    {
        let mut i: usize = 0;
        while i < self.entries.len()
            invariant
                0 <= i <= self.entries.len(),
                forall|j: int| 0 <= j < i ==> (#[trigger] self.entries@[j]).0@ != key@,
            decreases self.entries.len() - i,
        {
            if self.entries[i].0 == *key {
                proof {
                    lemma_entries_keys(self.entries@, key@);
                }
                return Some(i);
            }
            i = i + 1;
        }
        proof {
            lemma_entries_keys(self.entries@, key@);
        }
        None
    }

    /// The keys of the store, each once.
    pub fn keys(&self) -> (keys: Vec<String>)
        ensures
            batch::keys_view(keys@).to_set() == self@.dom(),
            batch::keys_view(keys@).no_duplicates(),
    {
        proof {
            use_type_invariant(self);
        }
        let mut keys: Vec<String> = Vec::new();
        let mut i: usize = 0;
        while i < self.entries.len()
            invariant
                0 <= i <= self.entries.len(),
                keys@.len() == i,
                forall|j: int| 0 <= j < i ==> (#[trigger] keys@[j])@ == self.entries@[j].0@,
            decreases self.entries.len() - i,
        {
            keys.push(self.entries[i].0.clone());
            i = i + 1;
        }
        proof {
            let views = batch::keys_view(keys@);
            assert forall|key: Seq<char>| views.to_set().contains(key) <==> self@.dom().contains(
                key,
            ) by {
                lemma_entries_keys(self.entries@, key);
                if views.to_set().contains(key) {
                    let j = choose|j: int| 0 <= j < views.len() && views[j] == key;
                    assert(keys@[j]@ == self.entries@[j].0@);
                }
                if has_key(self.entries@, key) {
                    let j = choose|j: int|
                        0 <= j < self.entries@.len() && (#[trigger] self.entries@[j]).0@ == key;
                    assert(views[j] == keys@[j]@);
                }
            }
            assert(views.to_set() =~= self@.dom());
            assert forall|a: int, b: int| 0 <= a < views.len() && 0 <= b < views.len() && a
                != b implies views[a] != views[b] by {
                assert(views[a] == keys@[a]@ && views[b] == keys@[b]@);
                if a < b {
                    assert(self.entries@[a].0@ != self.entries@[b].0@);
                } else {
                    assert(self.entries@[b].0@ != self.entries@[a].0@);
                }
            }
        }
        keys
    }

    /// Stores `record` under `key`, in place of what was there.
    pub fn set(&mut self, key: String, record: T)
        ensures
            final(self)@ == old(self)@.insert(key@, record),
    {
        proof {
            use_type_invariant(&*self);
        }
        let ghost before = self.entries@;
        let found = self.position(&key);
        let mut entries: Vec<(String, T)> = Vec::new();
        std::mem::swap(&mut self.entries, &mut entries);
        match found {
            Some(i) => {
                entries.set(i, (key, record));
                proof {
                    let after = entries@;
                    assert forall|a: int, b: int| 0 <= a < b < after.len() implies (
                    #[trigger] after[a]).0@ != (#[trigger] after[b]).0@ by {
                        assert(before[a].0@ == after[a].0@ && before[b].0@ == after[b].0@);
                    }
                    assert forall|k: Seq<char>|
                        entries_map(after).contains_key(k) <==> entries_map(before).insert(
                            key@,
                            record,
                        ).contains_key(k) by {
                        lemma_entries_keys(after, k);
                        lemma_entries_keys(before, k);
                        if has_key(after, k) {
                            let j = choose|j: int|
                                0 <= j < after.len() && (#[trigger] after[j]).0@ == k;
                            assert(before[j].0@ == after[j].0@);
                        }
                        if has_key(before, k) {
                            let j = choose|j: int|
                                0 <= j < before.len() && (#[trigger] before[j]).0@ == k;
                            assert(before[j].0@ == after[j].0@);
                        }
                        if k == key@ {
                            assert(after[i as int].0@ == k);
                        }
                    }
                    assert forall|k: Seq<char>| entries_map(after).contains_key(k) implies (
                    #[trigger] entries_map(after)[k]) == entries_map(before).insert(
                        key@,
                        record,
                    )[k] by {
                        lemma_entries_keys(after, k);
                        let j = choose|j: int|
                            0 <= j < after.len() && (#[trigger] after[j]).0@ == k;
                        lemma_entry_found(after, j);
                        if j != i {
                            assert(after[j] == before[j]);
                            lemma_entry_found(before, j);
                            if j < i {
                                assert(before[j].0@ != before[i as int].0@);
                            } else {
                                assert(before[i as int].0@ != before[j].0@);
                            }
                        }
                    }
                    assert(entries_map(after) =~= entries_map(before).insert(key@, record));
                }
            },
            None => {
                entries.push((key, record));
                proof {
                    let after = entries@;
                    assert(after.drop_last() =~= before);
                    assert forall|a: int, b: int| 0 <= a < b < after.len() implies (
                    #[trigger] after[a]).0@ != (#[trigger] after[b]).0@ by {
                        lemma_entries_keys(before, key@);
                        if b < before.len() {
                            assert(before[a] == after[a] && before[b] == after[b]);
                        } else {
                            assert(before[a] == after[a]);
                        }
                    }
                }
            },
        }
        self.entries = entries;
    }

    /// Drops `key` and its record, if the store has it.
    pub fn remove(&mut self, key: &String)
        ensures
            final(self)@ == old(self)@.remove(key@),
    {
        proof {
            use_type_invariant(&*self);
        }
        let ghost before = self.entries@;
        let found = self.position(key);
        let mut entries: Vec<(String, T)> = Vec::new();
        std::mem::swap(&mut self.entries, &mut entries);
        match found {
            Some(i) => {
                entries.remove(i);
                proof {
                    let after = entries@;
                    assert forall|j: int| 0 <= j < after.len() implies #[trigger] after[j] == (if j
                        < i {
                        before[j]
                    } else {
                        before[j + 1]
                    }) by {}
                    assert forall|a: int, b: int| 0 <= a < b < after.len() implies (
                    #[trigger] after[a]).0@ != (#[trigger] after[b]).0@ by {
                        let a0 = if a < i {
                            a
                        } else {
                            a + 1
                        };
                        let b0 = if b < i {
                            b
                        } else {
                            b + 1
                        };
                        assert(after[a] == before[a0] && after[b] == before[b0]);
                        assert(before[a0].0@ != before[b0].0@);
                    }
                    assert forall|k: Seq<char>|
                        entries_map(after).contains_key(k) <==> entries_map(before).remove(
                            key@,
                        ).contains_key(k) by {
                        lemma_entries_keys(after, k);
                        lemma_entries_keys(before, k);
                        if has_key(after, k) {
                            let j = choose|j: int|
                                0 <= j < after.len() && (#[trigger] after[j]).0@ == k;
                            let j0 = if j < i {
                                j
                            } else {
                                j + 1
                            };
                            assert(after[j] == before[j0]);
                            assert(before[j0].0@ == k);
                            if j0 < i {
                                assert(before[j0].0@ != before[i as int].0@);
                            } else {
                                assert(before[i as int].0@ != before[j0].0@);
                            }
                        }
                        if has_key(before, k) && k != key@ {
                            let j0 = choose|j: int|
                                0 <= j < before.len() && (#[trigger] before[j]).0@ == k;
                            let j = if j0 < i {
                                j0
                            } else {
                                j0 - 1
                            };
                            assert(after[j] == before[j0]);
                        }
                    }
                    assert forall|k: Seq<char>| entries_map(after).contains_key(k) implies (
                    #[trigger] entries_map(after)[k]) == entries_map(before).remove(key@)[k] by {
                        lemma_entries_keys(after, k);
                        let j = choose|j: int|
                            0 <= j < after.len() && (#[trigger] after[j]).0@ == k;
                        let j0 = if j < i {
                            j
                        } else {
                            j + 1
                        };
                        assert(after[j] == before[j0]);
                        lemma_entry_found(after, j);
                        lemma_entry_found(before, j0);
                    }
                    assert(entries_map(after) =~= entries_map(before).remove(key@));
                }
            },
            None => {
                proof {
                    assert(entries_map(before).remove(key@) =~= entries_map(before));
                }
            },
        }
        self.entries = entries;
    }

    /// Applies the writes of a batch, in their order.
    pub fn apply(&mut self, batch: Batch<T>)
        ensures
            final(self)@ == batch::apply_operations(old(self)@, batch@),
    {
        let ghost writes = batch@;
        let ghost start = self@;
        proof {
            assert(writes.take(0) =~= Seq::<BatchOperationView<T>>::empty());
        }
        for operation in it: batch.operations
            invariant
                it.seq() == batch.operations@,
                writes == batch@,
                self@ == batch::apply_operations(start, writes.take(it.index())),
        {
            proof {
                assert(writes.take(it.index() + 1).drop_last() =~= writes.take(it.index()));
                assert(writes.take(it.index() + 1).last() == operation@);
            }
            match operation {
                BatchOperation::Upsert(key, record) => {
                    self.set(key, record);
                },
                BatchOperation::Remove(key) => {
                    self.remove(&key);
                },
            }
        }
        proof {
            assert(writes.take(writes.len() as int) =~= writes);
        }
    }
}

impl<T: Clone> InMemoryStore<T> {
    /// A copy of the record under `name`, or a failure that names the key
    /// where the store has none.
    pub fn find(&self, name: &str) -> (found: Result<T, ServiceError>)
        ensures
            found_in(self@, name@, found),
    {
        proof {
            use_type_invariant(self);
        }
        let key = name.to_owned();
        match self.position(&key) {
            Some(i) => {
                proof {
                    lemma_entry_found(self.entries@, i as int);
                }
                Ok(self.entries[i].1.clone())
            },
            None => Err(ServiceError::new(String::from_str(KEY_NOT_FOUND).concat(name))),
        }
    }

    /// Copies of all records, each once, in the order in which their keys
    /// were first stored.
    pub fn all(&self) -> (records: Vec<T>)
        ensures
            all_of(self@, records@),
    {
        proof {
            use_type_invariant(self);
            lemma_entries_count(self.entries@);
        }
        let mut records: Vec<T> = Vec::new();
        let mut i: usize = 0;
        while i < self.entries.len()
            invariant
                0 <= i <= self.entries.len(),
                records@.len() == i,
                distinct_keys(self.entries@),
                forall|j: int|
                    0 <= j < i ==> vstd::pervasive::cloned::<T>(
                        self.entries@[j].1,
                        #[trigger] records@[j],
                    ),
            decreases self.entries.len() - i,
        {
            records.push(self.entries[i].1.clone());
            i = i + 1;
        }
        proof {
            assert forall|j: int| 0 <= j < records@.len() implies holds_copy(
                self@,
                #[trigger] records@[j],
            ) by {
                lemma_entry_found(self.entries@, j);
                let key = self.entries@[j].0@;
                assert(self@.contains_key(key) && vstd::pervasive::cloned::<T>(
                    self@[key],
                    records@[j],
                ));
            }
            assert forall|key: Seq<char>| self@.contains_key(key) implies exists|j: int|
                0 <= j < records@.len() && vstd::pervasive::cloned::<T>(
                    self@[key],
                    #[trigger] records@[j],
                ) by {
                lemma_entries_keys(self.entries@, key);
                let j = choose|j: int|
                    0 <= j < self.entries@.len() && (#[trigger] self.entries@[j]).0@ == key;
                lemma_entry_found(self.entries@, j);
                assert(vstd::pervasive::cloned::<T>(self@[key], records@[j]));
            }
        }
        records
    }
}

impl<T: WithName> InMemoryStore<T> {
    /// Replaces what the store holds by `items`, in one batch: afterwards
    /// the store holds exactly these records, each under its name. Where
    /// two items have one name, the later one stands.
    pub fn replace_all(&mut self, items: Vec<T>)
        ensures
            final(self)@ == keyed_by_name(items@),
    {
        let existing_keys = self.keys();
        let ghost records = self@;
        let planned = batch::plan_update(&existing_keys, items);
        proof {
            batch::lemma_planned_update_replaces(
                records,
                batch::keys_view(existing_keys@),
                items@,
            );
        }
        self.apply(planned);
    }
}

impl<T: Clone> ReadStore<T> for InMemoryStore<T> {
    open spec fn records(&self) -> Map<Seq<char>, T> {
        self@
    }

    /// A store in memory never fails: it gives the record that it holds, or
    /// tells that it holds none.
    open spec fn gives(&self, name: Seq<char>, found: Result<T, ServiceError>) -> bool {
        found_in(self@, name, found)
    }

    /// A store in memory never fails: it lists all that it holds.
    open spec fn lists(&self, listed: Result<Vec<T>, ServiceError>) -> bool {
        listed matches Ok(all) && all_of(self@, all@)
    }

    fn get(&self, name: &str) -> (found: Result<T, ServiceError>) {
        self.find(name)
    }

    fn list(&self) -> (listed: Result<Vec<T>, ServiceError>) {
        Ok(self.all())
    }
}

/// Enrichment from a catalog in memory: a node group that names an
/// instance type that the catalog holds is shown with the catalog's record
/// of it; one that names none, or one that the catalog does not hold, is
/// shown as it is.
pub proof fn lemma_populated_from_memory<
    R: Repository<NodeGroupDto>,
    T: TemplateService,
    V: VersionControl,
>(
    service: DefaultNodegroupsService<R, InMemoryStore<InstanceType>, T, V>,
    nodegroup: NodeGroupDto,
    shown: NodeGroupDto,
)
    requires
        service.populated(nodegroup, shown),
    ensures
        shown == match nodegroup.instance_name {
            Some(instance_name) => if service.store_view()@.contains_key(instance_name@) {
                nodegroups::described(nodegroup, service.store_view()@[instance_name@])
            } else {
                nodegroup
            },
            None => nodegroup,
        },
{
}

/// The instance types that a pricing list describes.
pub open spec fn listed_records(list: RawPricingList) -> Seq<
    crate::domain::model::instance_type::InstanceTypeView,
> {
    deserializer::catalog_records(deserializer::products_view(list.products@))
}

/// A refresh into a catalog in memory: a list whose version is not the one
/// applied last is applied. The cycle reports the number of its instance
/// types and remembers its version, and the catalog holds exactly these
/// instance types afterwards.
pub proof fn lemma_refresh_into_memory(
    before: DefaultInstanceTypesUpdater<InMemoryStore<InstanceType>>,
    list: RawPricingList,
    after: DefaultInstanceTypesUpdater<InMemoryStore<InstanceType>>,
    applied: Result<usize, UpdaterError>,
)
    requires
        before.refreshes(SourceReading::Document(list), after, applied),
        updater::version_changed(before.remembered(), list.version@),
    ensures
        applied matches Ok(count) && count == listed_records(list).len(),
        after.remembered() == Some(list.version@),
        updater::holds_catalog(after.store_view(), listed_records(list)),
{
    let (items, written) = choose|items: Seq<InstanceType>, written: Result<(), ServiceError>|
        {
            &&& #[trigger] before.store_view().writes(items, after.store_view(), written)
            &&& crate::domain::model::instance_type::records_view(items) == listed_records(list)
            &&& written is Ok ==> after.store_view().stored() == keyed_by_name(items)
            &&& match written {
                Ok(_) => {
                    &&& applied matches Ok(count) && count == items.len()
                    &&& after.remembered() == Some(list.version@)
                },
                Err(failure) => {
                    &&& applied == Err::<usize, UpdaterError>(UpdaterError::UpdateStore(failure))
                    &&& after.remembered() == before.remembered()
                },
            }
        };
    assert(crate::domain::model::instance_type::records_view(items).len() == items.len());
    assert(after.store_view().stored() == keyed_by_name(items));
}

/// Version gate idempotence, with a catalog in memory: of two refreshes
/// that read lists of one version, the first being due, the first applies
/// its list and the second changes nothing and reports 0, whatever the
/// second list holds.
pub proof fn lemma_refresh_twice(
    before: DefaultInstanceTypesUpdater<InMemoryStore<InstanceType>>,
    first: RawPricingList,
    between: DefaultInstanceTypesUpdater<InMemoryStore<InstanceType>>,
    applied_first: Result<usize, UpdaterError>,
    second: RawPricingList,
    after: DefaultInstanceTypesUpdater<InMemoryStore<InstanceType>>,
    applied_second: Result<usize, UpdaterError>,
)
    requires
        updater::version_changed(before.remembered(), first.version@),
        second.version@ == first.version@,
        before.refreshes(SourceReading::Document(first), between, applied_first),
        between.refreshes(SourceReading::Document(second), after, applied_second),
    ensures
        applied_first matches Ok(count) && count == listed_records(first).len(),
        applied_second == Ok::<usize, UpdaterError>(0),
        after == between,
        updater::holds_catalog(after.store_view(), listed_records(first)),
{
    lemma_refresh_into_memory(before, first, between, applied_first);
}

impl<T: WithName> WriteStore<T> for InMemoryStore<T> {
    open spec fn stored(&self) -> Map<Seq<char>, T> {
        self@
    }

    /// A store in memory takes every write: afterwards it holds exactly the
    /// records written, each under its name.
    open spec fn writes(
        &self,
        instance_types: Seq<T>,
        after: Self,
        written: Result<(), ServiceError>,
    ) -> bool {
        written is Ok && after@ == keyed_by_name(instance_types)
    }

    fn update(&mut self, instance_types: Vec<T>) -> (written: Result<(), ServiceError>) {
        self.replace_all(instance_types);
        Ok(())
    }
}

} // verus!
