//! The write that brings a store from one set of records to the next.
//!
//! A store is changed by one batch: an upsert for every new record, and a
//! removal for every key that the store holds and the new records do not
//! name. Applied to the store, the batch leaves exactly the new records.

use crate::domain::ports::incoming::WithName;
use crate::domain::ports::outgoing::keyed_by_name;
use vstd::prelude::*;

verus! {

/// One write of a batch.
#[derive(Debug)]
pub enum BatchOperation<T> {
    /// Store the record under the key, in place of what was there.
    Upsert(String, T),
    /// Drop the key and its record.
    Remove(String),
}

/// A [`BatchOperation`] with its key as characters.
pub enum BatchOperationView<T> {
    Upsert(Seq<char>, T),
    Remove(Seq<char>),
}

impl<T> View for BatchOperation<T> {
    type V = BatchOperationView<T>;

    open spec fn view(&self) -> BatchOperationView<T> {
        match *self {
            BatchOperation::Upsert(key, record) => BatchOperationView::Upsert(key@, record),
            BatchOperation::Remove(key) => BatchOperationView::Remove(key@),
        }
    }
}

/// Writes that a store applies together, in their order.
#[derive(Debug)]
pub struct Batch<T> {
    pub operations: Vec<BatchOperation<T>>,
}

impl<T> View for Batch<T> {
    type V = Seq<BatchOperationView<T>>;

    open spec fn view(&self) -> Seq<BatchOperationView<T>> {
        self.operations@.map_values(|operation: BatchOperation<T>| operation@)
    }
}

/// The records after one write.
pub open spec fn apply_operation<T>(
    records: Map<Seq<char>, T>,
    operation: BatchOperationView<T>,
) -> Map<Seq<char>, T> {
    match operation {
        BatchOperationView::Upsert(key, record) => records.insert(key, record),
        BatchOperationView::Remove(key) => records.remove(key),
    }
}

/// The records after a sequence of writes.
pub open spec fn apply_operations<T>(
    records: Map<Seq<char>, T>,
    operations: Seq<BatchOperationView<T>>,
) -> Map<Seq<char>, T>
    decreases operations.len(),
{
    if operations.len() == 0 {
        records
    } else {
        apply_operation(apply_operations(records, operations.drop_last()), operations.last())
    }
}

/// An upsert for each of `items`, in their order.
pub open spec fn upserts<T: WithName>(items: Seq<T>) -> Seq<BatchOperationView<T>> {
    Seq::new(items.len(), |i: int| BatchOperationView::Upsert(items[i].name_view(), items[i]))
}

/// A removal for each of `keys`, in their order.
pub open spec fn removals<T>(keys: Seq<Seq<char>>) -> Seq<BatchOperationView<T>> {
    Seq::new(keys.len(), |i: int| BatchOperationView::Remove(keys[i]))
}

/// Whether one of `items` has the name `key`.
pub open spec fn names<T: WithName>(items: Seq<T>, key: Seq<char>) -> bool {
    exists|i: int| 0 <= i < items.len() && (#[trigger] items[i]).name_view() == key
}

/// The keys of `existing` that none of `items` is named by, in their order.
pub open spec fn stale_keys<T: WithName>(existing: Seq<Seq<char>>, items: Seq<T>) -> Seq<
    Seq<char>,
> {
    existing.filter(|key: Seq<char>| !names(items, key))
}

/// The batch that turns a store with the keys `existing` into one that
/// holds `items`: the upserts, then the removals of the stale keys.
pub open spec fn planned_update<T: WithName>(existing: Seq<Seq<char>>, items: Seq<T>) -> Seq<
    BatchOperationView<T>,
> {
    upserts(items) + removals(stale_keys(existing, items))
}

/// No two of `items` have one name.
pub open spec fn distinct_names<T: WithName>(items: Seq<T>) -> bool {
    forall|i: int, j: int|
        0 <= i < j < items.len() ==> (#[trigger] items[i]).name_view() != (
        #[trigger] items[j]).name_view()
}

/// The characters of a sequence of keys.
pub open spec fn keys_view(keys: Seq<String>) -> Seq<Seq<char>> {
    keys.map_values(|key: String| key@)
}

/// Applying two runs of writes one after the other is applying their
/// concatenation.
pub proof fn lemma_apply_concatenation<T>(
    records: Map<Seq<char>, T>,
    first: Seq<BatchOperationView<T>>,
    second: Seq<BatchOperationView<T>>,
)
    ensures
        apply_operations(records, first + second) == apply_operations(
            apply_operations(records, first),
            second,
        ),
    decreases second.len(),
{
    if second.len() == 0 {
        assert(first + second =~= first);
    } else {
        lemma_apply_concatenation(records, first, second.drop_last());
        assert((first + second).drop_last() =~= first + second.drop_last());
        assert((first + second).last() == second.last());
    }
}

/// The names that `keyed_by_name` has are the names of the items.
pub proof fn lemma_keyed_names<T: WithName>(items: Seq<T>, key: Seq<char>)
    ensures
        keyed_by_name(items).contains_key(key) <==> names(items, key),
    decreases items.len(),
{
    if items.len() > 0 {
        let shorter = items.drop_last();
        lemma_keyed_names(shorter, key);
        if names(items, key) {
            let i = choose|i: int| 0 <= i < items.len() && (#[trigger] items[i]).name_view() == key;
            if i < shorter.len() {
                assert(shorter[i] == items[i]);
            }
        }
        if names(shorter, key) {
            let i = choose|i: int|
                0 <= i < shorter.len() && (#[trigger] shorter[i]).name_view() == key;
            assert(items[i] == shorter[i]);
        }
        if items.last().name_view() == key {
            assert(items[items.len() - 1].name_view() == key);
        }
    }
}

/// Where no two items have one name, each is found under its own.
pub proof fn lemma_keyed_record<T: WithName>(items: Seq<T>, i: int)
    requires
        distinct_names(items),
        0 <= i < items.len(),
    ensures
        keyed_by_name(items).contains_key(items[i].name_view()),
        keyed_by_name(items)[items[i].name_view()] == items[i],
    decreases items.len(),
{
    let shorter = items.drop_last();
    if i < items.len() - 1 {
        assert forall|a: int, b: int| 0 <= a < b < shorter.len() implies (
        #[trigger] shorter[a]).name_view() != (#[trigger] shorter[b]).name_view() by {
            assert(shorter[a] == items[a] && shorter[b] == items[b]);
        }
        lemma_keyed_record(shorter, i);
        assert(shorter[i] == items[i]);
        assert(items[i].name_view() != items[items.len() - 1].name_view());
    }
}

/// The upserts lay the new records over the old ones.
pub proof fn lemma_apply_upserts<T: WithName>(records: Map<Seq<char>, T>, items: Seq<T>)
    ensures
        apply_operations(records, upserts(items)) == records.union_prefer_right(
            keyed_by_name(items),
        ),
    decreases items.len(),
{
    if items.len() == 0 {
        assert(records.union_prefer_right(keyed_by_name(items)) =~= records);
    } else {
        let shorter = items.drop_last();
        lemma_apply_upserts(records, shorter);
        assert(upserts(items).drop_last() =~= upserts(shorter));
        assert(upserts(items).last() == BatchOperationView::Upsert(
            items.last().name_view(),
            items.last(),
        ));
        assert(records.union_prefer_right(keyed_by_name(shorter)).insert(
            items.last().name_view(),
            items.last(),
        ) =~= records.union_prefer_right(keyed_by_name(items)));
    }
}

/// The removals drop their keys and nothing else.
pub proof fn lemma_apply_removals<T>(records: Map<Seq<char>, T>, keys: Seq<Seq<char>>)
    ensures
        apply_operations(records, removals::<T>(keys)) == records.remove_keys(keys.to_set()),
    decreases keys.len(),
{
    if keys.len() == 0 {
        assert(records.remove_keys(keys.to_set()) =~= records);
    } else {
        let shorter = keys.drop_last();
        lemma_apply_removals(records, shorter);
        assert(removals::<T>(keys).drop_last() =~= removals::<T>(shorter));
        assert(removals::<T>(keys).last() == BatchOperationView::<T>::Remove(keys.last()));
        assert forall|key: Seq<char>| keys.to_set().contains(key) <==> (shorter.to_set().contains(
            key,
        ) || key == keys.last()) by {
            if keys.to_set().contains(key) {
                let i = choose|i: int| 0 <= i < keys.len() && keys[i] == key;
                if i < shorter.len() {
                    assert(shorter[i] == key);
                }
            }
            if shorter.to_set().contains(key) {
                let i = choose|i: int| 0 <= i < shorter.len() && shorter[i] == key;
                assert(keys[i] == key);
            }
            if key == keys.last() {
                assert(keys[keys.len() - 1] == key);
            }
        }
        assert(records.remove_keys(shorter.to_set()).remove(keys.last()) =~= records.remove_keys(
            keys.to_set(),
        ));
    }
}

/// The stale keys are the existing keys that no item is named by.
pub proof fn lemma_stale_keys<T: WithName>(existing: Seq<Seq<char>>, items: Seq<T>, key: Seq<char>)
    ensures
        stale_keys(existing, items).to_set().contains(key) <==> (existing.to_set().contains(key)
            && !names(items, key)),
    decreases existing.len(),
{
    reveal(Seq::filter);
    let stale = stale_keys(existing, items);
    if existing.len() > 0 {
        let shorter = existing.drop_last();
        lemma_stale_keys(shorter, items, key);
        let before = stale_keys(shorter, items);
        if existing.to_set().contains(key) {
            let i = choose|i: int| 0 <= i < existing.len() && existing[i] == key;
            if i < shorter.len() {
                assert(shorter[i] == key);
            }
        }
        if shorter.to_set().contains(key) {
            let i = choose|i: int| 0 <= i < shorter.len() && shorter[i] == key;
            assert(existing[i] == key);
        }
        if key == existing.last() {
            assert(existing[existing.len() - 1] == key);
        }
        if !names(items, existing.last()) {
            assert(stale == before.push(existing.last()));
            if stale.to_set().contains(key) {
                let i = choose|i: int| 0 <= i < stale.len() && stale[i] == key;
                if i < before.len() {
                    assert(before[i] == key);
                }
            }
            if before.to_set().contains(key) {
                let i = choose|i: int| 0 <= i < before.len() && before[i] == key;
                assert(stale[i] == key);
            }
            if key == existing.last() {
                assert(stale[stale.len() - 1] == key);
            }
        } else {
            assert(stale == before);
        }
    }
}

/// Diff correctness: a store that holds records under the keys `existing`,
/// whatever they are, holds exactly `items` after the planned batch. New
/// names are added, names that the items no longer have are gone, and every
/// name that stays has the record that the items give it.
pub proof fn lemma_planned_update_replaces<T: WithName>(
    records: Map<Seq<char>, T>,
    existing: Seq<Seq<char>>,
    items: Seq<T>,
)
    requires
        records.dom() == existing.to_set(),
    ensures
        apply_operations(records, planned_update(existing, items)) == keyed_by_name(items),
{
    let stale = stale_keys(existing, items);
    let laid = records.union_prefer_right(keyed_by_name(items));
    lemma_apply_concatenation(records, upserts(items), removals::<T>(stale));
    lemma_apply_upserts(records, items);
    lemma_apply_removals(laid, stale);
    assert forall|key: Seq<char>|
        laid.remove_keys(stale.to_set()).contains_key(key) <==> keyed_by_name(
            items,
        ).contains_key(key) by {
        lemma_stale_keys(existing, items, key);
        lemma_keyed_names(items, key);
    }
    assert(laid.remove_keys(stale.to_set()) =~= keyed_by_name(items));
}

/// What a reader finds under `key`: the record, if there is one.
pub open spec fn lookup<T>(records: Map<Seq<char>, T>, key: Seq<char>) -> Option<T> {
    if records.contains_key(key) {
        Some(records[key])
    } else {
        None
    }
}

/// Whether `seen` is one of `items` that has the name `key`.
pub open spec fn is_item_named<T: WithName>(items: Seq<T>, key: Seq<char>, seen: Option<T>) -> bool {
    exists|i: int|
        0 <= i < items.len() && (#[trigger] items[i]).name_view() == key && seen == Some(items[i])
}

/// Reads are whole, whatever the new records are: however far the planned
/// batch has been applied, a reader of one key finds what the store held
/// under it before, or what the new records hold under it, or, where
/// several new records have that name, one of them. It never finds a
/// record that is none of these.
pub proof fn lemma_reads_are_whole<T: WithName>(
    records: Map<Seq<char>, T>,
    existing: Seq<Seq<char>>,
    items: Seq<T>,
    applied: int,
    key: Seq<char>,
)
    requires
        records.dom() == existing.to_set(),
        0 <= applied <= planned_update(existing, items).len(),
    ensures
        ({
            let seen = lookup(
                apply_operations(records, planned_update(existing, items).take(applied)),
                key,
            );
            ||| seen == lookup(records, key)
            ||| seen == lookup(keyed_by_name(items), key)
            ||| is_item_named(items, key, seen)
        }),
    decreases applied,
{
    let plan = planned_update(existing, items);
    if applied == 0 {
        assert(plan.take(0) =~= Seq::<BatchOperationView<T>>::empty());
    } else {
        lemma_reads_are_whole(records, existing, items, applied - 1, key);
        assert(plan.take(applied).drop_last() =~= plan.take(applied - 1));
        assert(plan.take(applied).last() == plan[applied - 1]);
        let stale = stale_keys(existing, items);
        if applied - 1 < items.len() {
            let item = items[applied - 1];
            assert(plan[applied - 1] == upserts(items)[applied - 1]);
            if item.name_view() == key {
                assert(is_item_named(items, key, Some(item)));
            }
        } else {
            let gone = stale[applied - 1 - items.len()];
            assert(plan[applied - 1] == removals::<T>(stale)[applied - 1 - items.len()]);
            if gone == key {
                lemma_stale_keys(existing, items, key);
                lemma_keyed_names(items, key);
                assert(stale.to_set().contains(key));
            }
        }
    }
}

/// No torn read of a key: however far the planned batch has been applied,
/// a reader of one key finds either what the store held under it before or
/// what the new records hold under it, never anything else. It is stated
/// of new records no two of which have one name.
pub proof fn lemma_no_torn_read<T: WithName>(
    records: Map<Seq<char>, T>,
    existing: Seq<Seq<char>>,
    items: Seq<T>,
    applied: int,
    key: Seq<char>,
)
    requires
        records.dom() == existing.to_set(),
        distinct_names(items),
        0 <= applied <= planned_update(existing, items).len(),
    ensures
        ({
            let seen = lookup(
                apply_operations(records, planned_update(existing, items).take(applied)),
                key,
            );
            seen == lookup(records, key) || seen == lookup(keyed_by_name(items), key)
        }),
    decreases applied,
{
    let plan = planned_update(existing, items);
    if applied == 0 {
        assert(plan.take(0) =~= Seq::<BatchOperationView<T>>::empty());
    } else {
        lemma_no_torn_read(records, existing, items, applied - 1, key);
        assert(plan.take(applied).drop_last() =~= plan.take(applied - 1));
        assert(plan.take(applied).last() == plan[applied - 1]);
        let stale = stale_keys(existing, items);
        if applied - 1 < items.len() {
            let item = items[applied - 1];
            assert(plan[applied - 1] == upserts(items)[applied - 1]);
            if item.name_view() == key {
                lemma_keyed_record(items, applied - 1);
            }
        } else {
            let gone = stale[applied - 1 - items.len()];
            assert(plan[applied - 1] == removals::<T>(stale)[applied - 1 - items.len()]);
            if gone == key {
                lemma_stale_keys(existing, items, key);
                lemma_keyed_names(items, key);
                assert(stale.to_set().contains(key));
            }
        }
    }
}

/// Whether a write is an upsert under `key`.
pub open spec fn upserts_under<T>(operation: BatchOperationView<T>, key: Seq<char>) -> bool {
    operation matches BatchOperationView::Upsert(name, _) && name == key
}

/// Whether one of the first `count` writes is an upsert under `key`.
fn upserted<T: WithName>(operations: &Vec<BatchOperation<T>>, count: usize, key: &String) -> (found:
    bool)
    requires
        count <= operations.len(),
        forall|j: int|
            0 <= j < count ==> (#[trigger] operations@[j]) is Upsert,
    ensures
        found <==> exists|j: int|
            0 <= j < count && upserts_under((#[trigger] operations@[j])@, key@),
{
    let mut i: usize = 0;
    while i < count
        invariant
            0 <= i <= count <= operations.len(),
            forall|j: int| 0 <= j < i ==> !upserts_under((#[trigger] operations@[j])@, key@),
        decreases count - i,
    {
        match &operations[i] {
            BatchOperation::Upsert(name, _) => {
                if *name == *key {
                    return true;
                }
            },
            BatchOperation::Remove(_) => {},
        }
        i = i + 1;
    }
    false
}

/// Plans the batch that replaces the records under `existing_keys` by
/// `items`: an upsert for each item, in their order, then a removal for each
/// existing key that no item is named by.
pub fn plan_update<T: WithName>(existing_keys: &Vec<String>, items: Vec<T>) -> (batch: Batch<T>)
    ensures
        batch@ == planned_update(keys_view(existing_keys@), items@),
{
    let ghost all = items@;
    let ghost existing = keys_view(existing_keys@);
    let mut operations: Vec<BatchOperation<T>> = Vec::new();
    for item in it: items
        invariant
            it.seq() == all,
            operations@.len() == it.index(),
            forall|j: int|
                0 <= j < it.index() ==> (#[trigger] operations@[j])@ == BatchOperationView::Upsert(
                    all[j].name_view(),
                    all[j],
                ),
    {
        let name = item.name();
        operations.push(BatchOperation::Upsert(name, item));
    }
    let count: usize = operations.len();
    let mut i: usize = 0;
    proof {
        reveal(Seq::filter);
        assert(existing.take(0) =~= Seq::<Seq<char>>::empty());
        assert(stale_keys(existing.take(0), all) =~= Seq::<Seq<char>>::empty());
        assert(operations@.map_values(|operation: BatchOperation<T>| operation@) =~= upserts(all)
            + removals::<T>(stale_keys(existing.take(0), all)));
    }
    while i < existing_keys.len()
        invariant
            0 <= i <= existing_keys.len(),
            existing == keys_view(existing_keys@),
            count == all.len(),
            count <= operations@.len(),
            operations@.map_values(|operation: BatchOperation<T>| operation@) == upserts(all)
                + removals::<T>(stale_keys(existing.take(i as int), all)),
        decreases existing_keys.len() - i,
    {
        let ghost before = operations@.map_values(|operation: BatchOperation<T>| operation@);
        let ghost stale = stale_keys(existing.take(i as int), all);
        proof {
            reveal(Seq::filter);
            assert(existing.take(i as int + 1).drop_last() =~= existing.take(i as int));
            assert(existing.take(i as int + 1).last() == existing_keys@[i as int]@);
            assert forall|j: int| 0 <= j < count implies (#[trigger] operations@[j]) is Upsert by {
                assert(before[j] == upserts(all)[j]);
                assert(before[j] == operations@[j]@);
            }
        }
        let key = &existing_keys[i];
        let updated = upserted(&operations, count, key);
        proof {
            if updated {
                let j = choose|j: int|
                    0 <= j < count && upserts_under((#[trigger] operations@[j])@, key@);
                assert(before[j] == upserts(all)[j]);
                assert(before[j] == operations@[j]@);
                assert(all[j].name_view() == key@);
            }
            if names(all, key@) {
                let j = choose|j: int| 0 <= j < all.len() && (#[trigger] all[j]).name_view() == key@;
                assert(before[j] == upserts(all)[j]);
                assert(before[j] == operations@[j]@);
            }
            assert(updated == names(all, key@));
        }
        if !updated {
            operations.push(BatchOperation::Remove(key.clone()));
            proof {
                assert(stale_keys(existing.take(i as int + 1), all) == stale.push(key@));
                let after = operations@.map_values(|operation: BatchOperation<T>| operation@);
                assert(after =~= before.push(BatchOperationView::Remove(key@)));
                assert(removals::<T>(stale.push(key@)) =~= removals::<T>(stale).push(
                    BatchOperationView::Remove(key@),
                ));
                assert(after =~= upserts(all) + removals::<T>(stale.push(key@)));
            }
        } else {
            proof {
                assert(stale_keys(existing.take(i as int + 1), all) == stale);
            }
        }
        i = i + 1;
    }
    proof {
        assert(existing.take(i as int) =~= existing);
    }
    Batch { operations }
}

} // verus!
